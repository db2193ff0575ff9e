//! The lifecycle of one device session.
//!
//! A session clears the strip, starts the effect, steps it until a call
//! fails, and then stops it exactly once. [`Session`] makes these decisions;
//! its owner makes each call it names, performs what the call recorded, and
//! reports whether that went through.
use vstd::prelude::*;

verus! {

/// Where a session stands.
#[derive(Clone, Copy, Debug, PartialEq, Eq, Structural)]
pub enum Phase {
    Clearing,
    Starting,
    Running,
    Stopping,
    Finished,
}

/// The call that a session asks for next.
#[derive(Clone, Copy, Debug, PartialEq, Eq, Structural)]
pub enum Call {
    ClearLeds,
    Init,
    Iterate,
    Stop,
    Exit,
}

#[derive(Clone, Copy, Debug, PartialEq, Eq, Structural)]
pub struct Session {
    pub phase: Phase,
    /// Whether some call of this session has failed.
    pub failed: bool,
}

pub open spec fn call_in(p: Phase) -> Call {
    match p {
        Phase::Clearing => Call::ClearLeds,
        Phase::Starting => Call::Init,
        Phase::Running => Call::Iterate,
        Phase::Stopping => Call::Stop,
        Phase::Finished => Call::Exit,
    }
}

/// The session after the call it asked for came back, with `ok` telling
/// whether it succeeded.
pub open spec fn advance(s: Session, ok: bool) -> Session {
    match s.phase {
        Phase::Clearing => if ok {
            Session { phase: Phase::Starting, failed: s.failed }
        } else {
            Session { phase: Phase::Finished, failed: true }
        },
        Phase::Starting | Phase::Running => if ok {
            Session { phase: Phase::Running, failed: s.failed }
        } else {
            Session { phase: Phase::Stopping, failed: true }
        },
        Phase::Stopping => Session { phase: Phase::Finished, failed: s.failed || !ok },
        Phase::Finished => s,
    }
}

/// The calls a session asks for when the calls come back with `outcomes`,
/// one outcome per call, in order.
pub open spec fn calls(s: Session, outcomes: Seq<bool>) -> Seq<Call>
    decreases outcomes.len(),
{
    if outcomes.len() == 0 {
        Seq::empty()
    } else {
        seq![call_in(s.phase)] + calls(advance(s, outcomes[0]), outcomes.drop_first())
    }
}

impl Session {
    /// A session that has done nothing yet.
    pub fn new() -> (s: Session)
        ensures
            s == (Session { phase: Phase::Clearing, failed: false }),
    {
        Session { phase: Phase::Clearing, failed: false }
    }

    /// The call to make next.
    pub fn next_call(&self) -> (c: Call)
        ensures
            c == call_in(self.phase),
    {
        match self.phase {
            Phase::Clearing => Call::ClearLeds,
            Phase::Starting => Call::Init,
            Phase::Running => Call::Iterate,
            Phase::Stopping => Call::Stop,
            Phase::Finished => Call::Exit,
        }
    }

    /// Takes in how the last call went.
    pub fn complete(&mut self, ok: bool)
        ensures
            *final(self) == advance(*old(self), ok),
    {
        match self.phase {
            Phase::Clearing => {
                if ok {
                    self.phase = Phase::Starting;
                } else {
                    self.phase = Phase::Finished;
                    self.failed = true;
                }
            },
            Phase::Starting | Phase::Running => {
                if ok {
                    self.phase = Phase::Running;
                } else {
                    self.phase = Phase::Stopping;
                    self.failed = true;
                }
            },
            Phase::Stopping => {
                self.phase = Phase::Finished;
                if !ok {
                    self.failed = true;
                }
            },
            Phase::Finished => {},
        }
    }

    /// Whether the session has ended.
    pub fn is_finished(&self) -> (r: bool)
        ensures
            r == (self.phase == Phase::Finished),
    {
        self.phase == Phase::Finished
    }

    /// Whether the session has ended in failure.
    pub fn has_failed(&self) -> (r: bool)
        ensures
            r == self.failed,
    {
        self.failed
    }
}

/// A finished session asks for nothing but to exit.
pub proof fn lemma_finished_exits(s: Session, outcomes: Seq<bool>)
    requires
        s.phase == Phase::Finished,
    ensures
        calls(s, outcomes) == Seq::new(outcomes.len(), |i: int| Call::Exit),
    decreases outcomes.len(),
{
    if outcomes.len() > 0 {
        lemma_finished_exits(advance(s, outcomes[0]), outcomes.drop_first());
    }
    assert(calls(s, outcomes) =~= Seq::new(outcomes.len(), |i: int| Call::Exit));
}

/// When a step of a running effect fails, the effect is stopped exactly
/// once and never stepped again, whatever happens afterwards: the calls
/// are that step, one stop, and then only exits.
pub proof fn lemma_failed_step_stops_once(s: Session, outcomes: Seq<bool>)
    requires
        s.phase == Phase::Running,
        outcomes.len() >= 2,
        outcomes[0] == false,
    ensures
        calls(s, outcomes) == seq![Call::Iterate, Call::Stop] + Seq::new(
            (outcomes.len() - 2) as nat,
            |i: int| Call::Exit,
        ),
        calls(s, outcomes)[1] == Call::Stop,
        forall|k: int| 1 <= k < outcomes.len() ==> calls(s, outcomes)[k] != Call::Iterate,
        forall|k: int| 2 <= k < outcomes.len() ==> calls(s, outcomes)[k] != Call::Stop,
{
    let s1 = advance(s, outcomes[0]);
    let o1 = outcomes.drop_first();
    let s2 = advance(s1, o1[0]);
    let o2 = o1.drop_first();
    lemma_finished_exits(s2, o2);
    assert(calls(s1, o1) == seq![Call::Stop] + calls(s2, o2));
    assert(calls(s, outcomes) =~= seq![Call::Iterate, Call::Stop] + Seq::new(
        (outcomes.len() - 2) as nat,
        |i: int| Call::Exit,
    ));
}

} // verus!
