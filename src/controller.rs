//! The controller: the strip's size and the ordered record of what is to be
//! sent over the link.
//!
//! Drawing calls do not touch the port themselves. Each one appends an
//! [`Action`] to the controller's record; the owner of the port takes the
//! record with [`Controller::take_actions`] and performs it in order,
//! writing and flushing every frame before the next and stopping at the
//! first failure.
use vstd::prelude::*;

use crate::color::Color;
use crate::protocol::{set_led_bytes, set_led_frame, show_all_bytes, show_all_frame};

verus! {

/// One thing to do on the link.
#[derive(Clone, Debug, PartialEq, Eq)]
pub enum Action {
    /// Write these bytes as one frame, then flush.
    Send(Vec<u8>),
    /// Wait this many milliseconds.
    Pause(u64),
}

/// The mathematical form of an [`Action`].
pub enum Step {
    Send(Seq<u8>),
    Pause(u64),
}

impl View for Action {
    type V = Step;

    open spec fn view(&self) -> Step {
        match self {
            Action::Send(bytes) => Step::Send(bytes@),
            Action::Pause(ms) => Step::Pause(*ms),
        }
    }
}

/// The step that sets LED `index` to `c`.
pub open spec fn set_step(index: int, c: Color) -> Step {
    Step::Send(set_led_bytes(index as u8, c))
}

/// The step that shows `c` on the whole strip.
pub open spec fn show_step(c: Color) -> Step {
    Step::Send(show_all_bytes(c))
}

pub open spec fn black() -> Color {
    Color { r: 0, g: 0, b: 0 }
}

pub open spec fn red() -> Color {
    Color { r: 255, g: 0, b: 0 }
}

/// How many LEDs a full sweep touches: every index but the last one. The
/// last index is left out on purpose, and alike in clearing and in every
/// effect that sweeps the strip.
pub open spec fn sweep_len(led_count: u8) -> nat {
    if led_count == 0 {
        0
    } else {
        (led_count - 1) as nat
    }
}

/// Clearing the strip: black on indices `0 .. sweep_len(led_count)`, ascending.
pub open spec fn clear_steps(led_count: u8) -> Seq<Step> {
    Seq::new(sweep_len(led_count), |i: int| set_step(i, black()))
}

pub open spec fn steps_of(actions: Seq<Action>) -> Seq<Step> {
    actions.map_values(|a: Action| a@)
}

/// Owns the strip's size and the record of actions not yet performed.
pub struct Controller {
    led_count: u8,
    actions: Vec<Action>,
}

impl Controller {
    /// Number of LEDs on the strip.
    pub closed spec fn leds(&self) -> u8 {
        self.led_count
    }

    /// The steps recorded and not yet taken, oldest first.
    pub closed spec fn log(&self) -> Seq<Step> {
        steps_of(self.actions@)
    }

    pub fn new(led_count: u8) -> (c: Controller)
        ensures
            c.leds() == led_count,
            c.log() == Seq::<Step>::empty(),
    {
        let c = Controller { led_count, actions: Vec::new() };
        assert(c.log() =~= Seq::<Step>::empty());
        c
    }

    pub fn led_count(&self) -> (n: u8)
        ensures
            n == self.leds(),
    {
        self.led_count
    }

    fn record(&mut self, a: Action)
        ensures
            final(self).leds() == old(self).leds(),
            final(self).log() == old(self).log().push(a@),
    {
        let ghost before = self.actions@;
        self.actions.push(a);
        assert(steps_of(self.actions@) =~= steps_of(before).push(a@));
    }

    /// Sends `[PREFIX, SET_LED, index, r, g, b]`.
    pub fn set_led(&mut self, index: &u8, rgb: &Color)
        ensures
            final(self).leds() == old(self).leds(),
            final(self).log() == old(self).log().push(set_step(*index as int, *rgb)),
    {
        let bytes = set_led_frame(*index, *rgb);
        self.record(Action::Send(bytes));
    }

    /// Sends `[PREFIX, SHOW_ALL, r, g, b]`.
    pub fn show_color(&mut self, rgb: &Color)
        ensures
            final(self).leds() == old(self).leds(),
            final(self).log() == old(self).log().push(show_step(*rgb)),
    {
        let bytes = show_all_frame(*rgb);
        self.record(Action::Send(bytes));
    }

    /// Holds the link idle for `ms` milliseconds.
    pub fn pause(&mut self, ms: u64)
        ensures
            final(self).leds() == old(self).leds(),
            final(self).log() == old(self).log().push(Step::Pause(ms)),
    {
        self.record(Action::Pause(ms));
    }

    /// Sets every LED but the last one to black, in ascending order; nothing
    /// at all on a strip of one LED or none.
    pub fn clear_leds(&mut self)
        ensures
            final(self).leds() == old(self).leds(),
            final(self).log() == old(self).log() + clear_steps(old(self).leds()),
    {
        let n: u8 = if self.led_count == 0 { 0 } else { self.led_count - 1 };
        let black = Color::black();
        let mut i: u8 = 0;
        while i < n
            invariant
                n == sweep_len(old(self).leds()),
                i <= n,
                black == crate::controller::black(),
                self.leds() == old(self).leds(),
                self.log() == old(self).log() + Seq::new(i as nat, |k: int| set_step(k, black)),
            decreases n - i,
        {
            self.set_led(&i, &black);
            assert(Seq::new((i + 1) as nat, |k: int| set_step(k, black)) =~= Seq::new(
                i as nat,
                |k: int| set_step(k, black),
            ).push(set_step(i as int, black)));
            i = i + 1;
        }
        assert(Seq::new(i as nat, |k: int| set_step(k, black)) =~= clear_steps(old(self).leds()));
    }

    /// Hands over the recorded actions, oldest first, and empties the record.
    pub fn take_actions(&mut self) -> (r: Vec<Action>)
        ensures
            final(self).leds() == old(self).leds(),
            final(self).log() == Seq::<Step>::empty(),
            steps_of(r@) == old(self).log(),
    {
        let mut r: Vec<Action> = Vec::new();
        core::mem::swap(&mut self.actions, &mut r);
        assert(self.log() =~= Seq::<Step>::empty());
        r
    }
}

} // verus!
