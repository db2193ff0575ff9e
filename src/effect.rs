//! Lighting effects and their lifecycle.
//!
//! An effect is started once with [`Effect::init`], stepped any number of
//! times with [`Effect::iter`] and ended once with [`Effect::stop`]. Each
//! call draws on the [`Controller`] it is lent and keeps no hold on it.
//! What an effect reads from outside (a probe reply, a sensor value, an
//! alert count) arrives in a [`Readings`] value.
use vstd::prelude::*;

use crate::color::Color;
use crate::controller::{black, red, set_step, show_step, sweep_len, Controller, Step};

verus! {

/// What the outside world reported just before a step.
#[derive(Clone, Copy, Debug, PartialEq, Eq, Structural)]
pub struct Readings {
    /// Whether the last network probe got through.
    pub probe_ok: bool,
    /// The watched sensor's temperature, in thousandths of a degree Celsius.
    pub temp_millicelsius: i32,
    /// How many areas the alert feed reports at present.
    pub alert_areas: u64,
}

impl Readings {
    /// A quiet world: probe answered, zero degrees, no alert.
    pub fn calm() -> (r: Readings)
        ensures
            r == (Readings { probe_ok: true, temp_millicelsius: 0, alert_areas: 0 }),
    {
        Readings { probe_ok: true, temp_millicelsius: 0, alert_areas: 0 }
    }
}

/// A lighting effect with its three lifecycle calls. Each call appends to
/// the controller's record exactly the steps named by the matching spec
/// function, and leaves the strip size alone.
pub trait Effect {
    /// What starting the effect draws on a strip of `led_count` LEDs.
    spec fn init_steps(&self, led_count: u8) -> Seq<Step>;

    /// What one step draws, given what the outside world reported.
    spec fn iter_steps(&self, led_count: u8, seen: Readings) -> Seq<Step>;

    /// What ending the effect draws.
    spec fn stop_steps(&self, led_count: u8) -> Seq<Step>;

    fn init(&self, controller: &mut Controller)
        ensures
            final(controller).leds() == old(controller).leds(),
            final(controller).log() == old(controller).log() + self.init_steps(
                old(controller).leds(),
            ),
    ;

    fn iter(&self, controller: &mut Controller, seen: &Readings)
        ensures
            final(controller).leds() == old(controller).leds(),
            final(controller).log() == old(controller).log() + self.iter_steps(
                old(controller).leds(),
                *seen,
            ),
    ;

    fn stop(&self, controller: &mut Controller)
        ensures
            final(controller).leds() == old(controller).leds(),
            final(controller).log() == old(controller).log() + self.stop_steps(
                old(controller).leds(),
            ),
    ;
}

/// Solid red, drawn once.
#[derive(Clone, Copy, Debug, Default, PartialEq, Eq, Structural)]
pub struct JustRed;

impl Effect for JustRed {
    open spec fn init_steps(&self, led_count: u8) -> Seq<Step> {
        seq![show_step(red())]
    }

    open spec fn iter_steps(&self, led_count: u8, seen: Readings) -> Seq<Step> {
        Seq::empty()
    }

    open spec fn stop_steps(&self, led_count: u8) -> Seq<Step> {
        Seq::empty()
    }

    fn init(&self, controller: &mut Controller) {
        controller.show_color(&Color::red());
        assert(controller.log() =~= old(controller).log() + self.init_steps(old(controller).leds()));
    }

    fn iter(&self, controller: &mut Controller, seen: &Readings) {
        assert(controller.log() =~= old(controller).log() + Seq::<Step>::empty());
    }

    fn stop(&self, controller: &mut Controller) {
        assert(controller.log() =~= old(controller).log() + Seq::<Step>::empty());
    }
}


pub open spec fn magenta() -> Color {
    Color { r: 255, g: 0, b: 255 }
}

/// Where the dot was before it moved to `i`: the previous index, and for
/// index 0 the last index that the sweep reaches.
pub open spec fn dot_before(led_count: u8, i: int) -> int {
    if i == 0 {
        led_count - 2
    } else {
        i - 1
    }
}

/// The first `k` moves of the dot: each darkens the LED it leaves and
/// lights the next one red.
pub open spec fn dot_moves(led_count: u8, k: nat) -> Seq<Step> {
    Seq::new(
        2 * k,
        |j: int|
            if j % 2 == 0 {
                set_step(dot_before(led_count, j / 2), black())
            } else {
                set_step(j / 2, red())
            },
    )
}

/// A single red LED running along the strip.
#[derive(Clone, Copy, Debug, Default, PartialEq, Eq, Structural)]
pub struct MovingRedDot;

impl Effect for MovingRedDot {
    open spec fn init_steps(&self, led_count: u8) -> Seq<Step> {
        Seq::empty()
    }

    open spec fn iter_steps(&self, led_count: u8, seen: Readings) -> Seq<Step> {
        dot_moves(led_count, sweep_len(led_count))
    }

    open spec fn stop_steps(&self, led_count: u8) -> Seq<Step> {
        Seq::empty()
    }

    fn init(&self, controller: &mut Controller) {
        assert(controller.log() =~= old(controller).log() + Seq::<Step>::empty());
    }

    fn iter(&self, controller: &mut Controller, seen: &Readings) {
        let led_count = controller.led_count();
        let n: u8 = if led_count == 0 { 0 } else { led_count - 1 };
        let black = Color::black();
        let red = Color::red();
        let mut i: u8 = 0;
        while i < n
            invariant
                led_count == old(controller).leds(),
                n == sweep_len(led_count),
                i <= n,
                black == crate::controller::black(),
                red == crate::controller::red(),
                controller.leds() == led_count,
                controller.log() == old(controller).log() + dot_moves(led_count, i as nat),
            decreases n - i,
        {
            let before: u8 = if i == 0 { led_count - 2 } else { i - 1 };
            controller.set_led(&before, &black);
            controller.set_led(&i, &red);
            assert(dot_moves(led_count, (i + 1) as nat) =~= dot_moves(led_count, i as nat).push(
                set_step(dot_before(led_count, i as int), black),
            ).push(set_step(i as int, red)));
            i = i + 1;
        }
    }

    fn stop(&self, controller: &mut Controller) {
        assert(controller.log() =~= old(controller).log() + Seq::<Step>::empty());
    }
}

/// Probes a fixed network address every half second: red while it answers,
/// magenta while it does not.
#[derive(Clone, Copy, Debug, Default, PartialEq, Eq, Structural)]
pub struct PingIP;

/// Milliseconds between two probes.
pub const PROBE_INTERVAL_MS: u64 = 500;

impl Effect for PingIP {
    open spec fn init_steps(&self, led_count: u8) -> Seq<Step> {
        seq![show_step(red())]
    }

    open spec fn iter_steps(&self, led_count: u8, seen: Readings) -> Seq<Step> {
        seq![
            show_step(if seen.probe_ok { red() } else { magenta() }),
            Step::Pause(PROBE_INTERVAL_MS),
        ]
    }

    open spec fn stop_steps(&self, led_count: u8) -> Seq<Step> {
        Seq::empty()
    }

    fn init(&self, controller: &mut Controller) {
        controller.show_color(&Color::red());
        assert(controller.log() =~= old(controller).log() + self.init_steps(old(controller).leds()));
    }

    fn iter(&self, controller: &mut Controller, seen: &Readings) {
        if seen.probe_ok {
            controller.show_color(&Color::red());
        } else {
            controller.show_color(&Color::magenta());
        }
        controller.pause(PROBE_INTERVAL_MS);
        assert(controller.log() =~= old(controller).log() + self.iter_steps(
            old(controller).leds(),
            *seen,
        ));
    }

    fn stop(&self, controller: &mut Controller) {
        assert(controller.log() =~= old(controller).log() + Seq::<Step>::empty());
    }
}

/// Red, green and blue in turn on the whole strip.
#[derive(Clone, Copy, Debug, Default, PartialEq, Eq, Structural)]
pub struct ArrGeeBee;

impl Effect for ArrGeeBee {
    open spec fn init_steps(&self, led_count: u8) -> Seq<Step> {
        Seq::empty()
    }

    open spec fn iter_steps(&self, led_count: u8, seen: Readings) -> Seq<Step> {
        seq![
            show_step(red()),
            show_step(Color { r: 0, g: 255, b: 0 }),
            show_step(Color { r: 0, g: 0, b: 255 }),
        ]
    }

    open spec fn stop_steps(&self, led_count: u8) -> Seq<Step> {
        seq![show_step(red())]
    }

    fn init(&self, controller: &mut Controller) {
        assert(controller.log() =~= old(controller).log() + Seq::<Step>::empty());
    }

    fn iter(&self, controller: &mut Controller, seen: &Readings) {
        controller.show_color(&Color::red());
        controller.show_color(&Color::green());
        controller.show_color(&Color::blue());
        assert(controller.log() =~= old(controller).log() + self.iter_steps(
            old(controller).leds(),
            *seen,
        ));
    }

    fn stop(&self, controller: &mut Controller) {
        controller.show_color(&Color::red());
        assert(controller.log() =~= old(controller).log() + self.stop_steps(old(controller).leds()));
    }
}

/// The red channel for a temperature: whole degrees Celsius, rounded toward
/// zero and held to `0 ..= 255`, as a float-to-`u8` cast does.
pub open spec fn temp_channel(millicelsius: i32) -> u8 {
    if millicelsius < 0 {
        0
    } else if millicelsius >= 255000 {
        255
    } else {
        (millicelsius / 1000) as u8
    }
}

/// Whole degrees of a reading, as [`temp_channel`] states.
pub fn temperature_channel(millicelsius: i32) -> (r: u8)
    ensures
        r == temp_channel(millicelsius),
{
    if millicelsius < 0 {
        0
    } else if millicelsius >= 255000 {
        255
    } else {
        (millicelsius / 1000) as u8
    }
}

/// Milliseconds between two temperature readings.
pub const TEMP_INTERVAL_MS: u64 = 200;

/// Shows a sensor's temperature as the strength of red.
#[derive(Clone, Copy, Debug, Default, PartialEq, Eq, Structural)]
pub struct CPUTemp;

impl Effect for CPUTemp {
    open spec fn init_steps(&self, led_count: u8) -> Seq<Step> {
        Seq::empty()
    }

    open spec fn iter_steps(&self, led_count: u8, seen: Readings) -> Seq<Step> {
        seq![
            show_step(Color { r: temp_channel(seen.temp_millicelsius), g: 0, b: 0 }),
            Step::Pause(TEMP_INTERVAL_MS),
        ]
    }

    open spec fn stop_steps(&self, led_count: u8) -> Seq<Step> {
        seq![show_step(red())]
    }

    fn init(&self, controller: &mut Controller) {
        assert(controller.log() =~= old(controller).log() + Seq::<Step>::empty());
    }

    fn iter(&self, controller: &mut Controller, seen: &Readings) {
        let r = temperature_channel(seen.temp_millicelsius);
        controller.show_color(&Color::new(r, 0, 0));
        controller.pause(TEMP_INTERVAL_MS);
        assert(controller.log() =~= old(controller).log() + self.iter_steps(
            old(controller).leds(),
            *seen,
        ));
    }

    fn stop(&self, controller: &mut Controller) {
        controller.show_color(&Color::red());
        assert(controller.log() =~= old(controller).log() + self.stop_steps(old(controller).leds()));
    }
}

/// Milliseconds of darkness before a rainbow is drawn.
pub const RAINBOW_LEAD_MS: u64 = 500;

/// Milliseconds between two LEDs of a rainbow.
pub const RAINBOW_STEP_MS: u64 = 150;

/// How many LEDs a rainbow of `palette_len` colours lights on a strip.
pub open spec fn rainbow_len(led_count: u8, palette_len: nat) -> nat {
    if sweep_len(led_count) <= palette_len {
        sweep_len(led_count)
    } else {
        palette_len
    }
}

/// The first `k` LEDs of a rainbow: each LED takes its colour from the
/// palette, and a pause follows it.
pub open spec fn rainbow_strokes(palette: Seq<Color>, k: nat) -> Seq<Step> {
    Seq::new(
        2 * k,
        |j: int|
            if j % 2 == 0 {
                set_step(j / 2, palette[j / 2])
            } else {
                Step::Pause(RAINBOW_STEP_MS)
            },
    )
}

/// Draws a palette along the strip once, LED by LED, and then stays still.
/// LED `i` takes `palette[i]`; the sweep ends at the strip's last index but
/// one, or earlier where the palette runs out.
#[derive(Clone, Debug, Default, PartialEq, Eq)]
pub struct Rainbow {
    pub palette: Vec<Color>,
}

impl Rainbow {
    pub fn new(palette: Vec<Color>) -> (r: Rainbow)
        ensures
            r.palette@ == palette@,
    {
        Rainbow { palette }
    }
}

impl Effect for Rainbow {
    open spec fn init_steps(&self, led_count: u8) -> Seq<Step> {
        seq![Step::Pause(RAINBOW_LEAD_MS)] + rainbow_strokes(
            self.palette@,
            rainbow_len(led_count, self.palette@.len()),
        )
    }

    open spec fn iter_steps(&self, led_count: u8, seen: Readings) -> Seq<Step> {
        Seq::empty()
    }

    open spec fn stop_steps(&self, led_count: u8) -> Seq<Step> {
        Seq::empty()
    }

    fn init(&self, controller: &mut Controller) {
        controller.pause(RAINBOW_LEAD_MS);
        let led_count = controller.led_count();
        let sweep: u8 = if led_count == 0 { 0 } else { led_count - 1 };
        let n: usize = if (sweep as usize) <= self.palette.len() {
            sweep as usize
        } else {
            self.palette.len()
        };
        let mut i: usize = 0;
        while i < n
            invariant
                led_count == old(controller).leds(),
                n == rainbow_len(led_count, self.palette@.len()),
                n <= self.palette@.len(),
                n < 256,
                i <= n,
                controller.leds() == led_count,
                controller.log() == old(controller).log() + seq![Step::Pause(RAINBOW_LEAD_MS)]
                    + rainbow_strokes(self.palette@, i as nat),
            decreases n - i,
        {
            let index: u8 = i as u8;
            controller.set_led(&index, &self.palette[i]);
            controller.pause(RAINBOW_STEP_MS);
            assert(rainbow_strokes(self.palette@, (i + 1) as nat) =~= rainbow_strokes(
                self.palette@,
                i as nat,
            ).push(set_step(i as int, self.palette@[i as int])).push(Step::Pause(RAINBOW_STEP_MS)));
            i = i + 1;
        }
    }

    fn iter(&self, controller: &mut Controller, seen: &Readings) {
        assert(controller.log() =~= old(controller).log() + Seq::<Step>::empty());
    }

    fn stop(&self, controller: &mut Controller) {
        assert(controller.log() =~= old(controller).log() + Seq::<Step>::empty());
    }
}

/// The longest blink period, at an alert count of zero or one.
pub const ALERT_PERIOD_MS: u64 = 600;

/// How often the alert feed is polled, in milliseconds.
pub const ALERT_POLL_MS: u64 = 2000;

/// Half a blink at `areas` alerted areas.
pub open spec fn blink_half(areas: u64) -> u64 {
    if areas == 0 {
        ALERT_PERIOD_MS
    } else {
        (ALERT_PERIOD_MS / areas) as u64
    }
}

/// Blinks red, faster the more areas an alert feed reports; steady red
/// while there is no alert. The count arrives in [`Readings::alert_areas`];
/// polling the feed, in the background and without holding up `init`, is
/// the caller's part.
#[derive(Clone, Copy, Debug, Default, PartialEq, Eq, Structural)]
pub struct MissleAlert;

impl Effect for MissleAlert {
    open spec fn init_steps(&self, led_count: u8) -> Seq<Step> {
        seq![show_step(red())]
    }

    open spec fn iter_steps(&self, led_count: u8, seen: Readings) -> Seq<Step> {
        if seen.alert_areas == 0 {
            seq![show_step(red()), Step::Pause(ALERT_PERIOD_MS)]
        } else {
            seq![
                show_step(red()),
                Step::Pause(blink_half(seen.alert_areas)),
                show_step(black()),
                Step::Pause(blink_half(seen.alert_areas)),
            ]
        }
    }

    open spec fn stop_steps(&self, led_count: u8) -> Seq<Step> {
        seq![show_step(red())]
    }

    fn init(&self, controller: &mut Controller) {
        controller.show_color(&Color::red());
        assert(controller.log() =~= old(controller).log() + self.init_steps(old(controller).leds()));
    }

    fn iter(&self, controller: &mut Controller, seen: &Readings) {
        let areas = seen.alert_areas;
        let half: u64 = if areas == 0 { ALERT_PERIOD_MS } else { ALERT_PERIOD_MS / areas };
        controller.show_color(&Color::red());
        controller.pause(half);
        if areas != 0 {
            controller.show_color(&Color::black());
            controller.pause(half);
        }
        assert(controller.log() =~= old(controller).log() + self.iter_steps(
            old(controller).leds(),
            *seen,
        ));
    }

    fn stop(&self, controller: &mut Controller) {
        controller.show_color(&Color::red());
        assert(controller.log() =~= old(controller).log() + self.stop_steps(old(controller).leds()));
    }
}

} // verus!
