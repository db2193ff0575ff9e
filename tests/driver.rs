use led_driver::controller::{Action, Controller};
use led_driver::effect::{
    temperature_channel, ArrGeeBee, CPUTemp, Effect, JustRed, MissleAlert, MovingRedDot, PingIP,
    Rainbow, Readings,
};
use led_driver::protocol::{
    decode_frame, set_led_frame, show_all_frame, Frame, PREFIX, SET_LED, SHOW_ALL,
};
use led_driver::session::{Call, Phase, Session};
use led_driver::Color;

fn set(i: u8, c: Color) -> Action {
    Action::Send(vec![PREFIX, SET_LED, i, c.r, c.g, c.b])
}

fn show(c: Color) -> Action {
    Action::Send(vec![PREFIX, SHOW_ALL, c.r, c.g, c.b])
}

fn black() -> Color {
    Color::new(0, 0, 0)
}

fn red() -> Color {
    Color::new(255, 0, 0)
}

#[test]
fn set_led_writes_six_byte_frame() {
    let mut ctl = Controller::new(60);
    ctl.set_led(&7, &Color::new(1, 2, 3));
    assert_eq!(ctl.take_actions(), vec![Action::Send(vec![0xAB, 0x01, 7, 1, 2, 3])]);
    for i in 0..60u8 {
        ctl.set_led(&i, &Color::new(i, 200, 9));
        assert_eq!(ctl.take_actions(), vec![set(i, Color::new(i, 200, 9))]);
    }
}

#[test]
fn show_color_writes_five_byte_frame() {
    let mut ctl = Controller::new(60);
    ctl.show_color(&Color::new(10, 20, 30));
    assert_eq!(ctl.take_actions(), vec![Action::Send(vec![0xAB, 0x02, 10, 20, 30])]);
}

#[test]
fn take_actions_empties_the_record() {
    let mut ctl = Controller::new(3);
    ctl.pause(5);
    assert_eq!(ctl.take_actions(), vec![Action::Pause(5)]);
    assert_eq!(ctl.take_actions(), vec![]);
    assert_eq!(ctl.led_count(), 3);
}

#[test]
fn clear_leds_on_sixty() {
    let mut ctl = Controller::new(60);
    ctl.clear_leds();
    let got = ctl.take_actions();
    assert_eq!(got.len(), 59);
    let want: Vec<Action> = (0..59u8).map(|i| set(i, black())).collect();
    assert_eq!(got, want);
}

#[test]
fn clear_leds_on_tiny_strips() {
    for n in [0u8, 1] {
        let mut ctl = Controller::new(n);
        ctl.clear_leds();
        assert_eq!(ctl.take_actions(), vec![]);
    }
    let mut ctl = Controller::new(2);
    ctl.clear_leds();
    assert_eq!(ctl.take_actions(), vec![set(0, black())]);
}

#[test]
fn just_red_shows_red_once() {
    let mut ctl = Controller::new(60);
    JustRed.init(&mut ctl);
    JustRed.iter(&mut ctl, &Readings::calm());
    JustRed.stop(&mut ctl);
    assert_eq!(ctl.take_actions(), vec![show(red())]);
}

#[test]
fn moving_dot_on_four() {
    let mut ctl = Controller::new(4);
    MovingRedDot.init(&mut ctl);
    MovingRedDot.iter(&mut ctl, &Readings::calm());
    assert_eq!(
        ctl.take_actions(),
        vec![
            set(2, black()),
            set(0, red()),
            set(0, black()),
            set(1, red()),
            set(1, black()),
            set(2, red()),
        ]
    );
}

#[test]
fn moving_dot_on_two_and_one() {
    let mut ctl = Controller::new(2);
    MovingRedDot.iter(&mut ctl, &Readings::calm());
    assert_eq!(ctl.take_actions(), vec![set(0, black()), set(0, red())]);
    let mut ctl = Controller::new(1);
    MovingRedDot.iter(&mut ctl, &Readings::calm());
    assert_eq!(ctl.take_actions(), vec![]);
}

#[test]
fn rgb_cycle_three_colors() {
    let mut ctl = Controller::new(60);
    ctl.set_led(&4, &Color::new(9, 9, 9));
    ctl.take_actions();
    ArrGeeBee.iter(&mut ctl, &Readings::calm());
    assert_eq!(
        ctl.take_actions(),
        vec![show(red()), show(Color::new(0, 255, 0)), show(Color::new(0, 0, 255))]
    );
    ArrGeeBee.stop(&mut ctl);
    assert_eq!(ctl.take_actions(), vec![show(red())]);
}

#[test]
fn ping_failure_shows_magenta() {
    let mut ctl = Controller::new(60);
    let seen = Readings { probe_ok: false, temp_millicelsius: 0, alert_areas: 0 };
    PingIP.iter(&mut ctl, &seen);
    assert_eq!(ctl.take_actions(), vec![show(Color::new(255, 0, 255)), Action::Pause(500)]);
}

#[test]
fn ping_success_shows_red() {
    let mut ctl = Controller::new(60);
    PingIP.init(&mut ctl);
    PingIP.iter(&mut ctl, &Readings::calm());
    assert_eq!(ctl.take_actions(), vec![show(red()), show(red()), Action::Pause(500)]);
}

#[test]
fn alert_with_no_areas_is_steady_red() {
    let mut ctl = Controller::new(60);
    MissleAlert.iter(&mut ctl, &Readings::calm());
    assert_eq!(ctl.take_actions(), vec![show(red()), Action::Pause(600)]);
}

#[test]
fn alert_with_three_areas_blinks() {
    let mut ctl = Controller::new(60);
    let seen = Readings { probe_ok: true, temp_millicelsius: 0, alert_areas: 3 };
    MissleAlert.iter(&mut ctl, &seen);
    assert_eq!(
        ctl.take_actions(),
        vec![show(red()), Action::Pause(200), show(black()), Action::Pause(200)]
    );
}

#[test]
fn alert_with_one_area_and_many() {
    let mut ctl = Controller::new(60);
    let one = Readings { probe_ok: true, temp_millicelsius: 0, alert_areas: 1 };
    MissleAlert.iter(&mut ctl, &one);
    assert_eq!(
        ctl.take_actions(),
        vec![show(red()), Action::Pause(600), show(black()), Action::Pause(600)]
    );
    let many = Readings { probe_ok: true, temp_millicelsius: 0, alert_areas: 1000 };
    MissleAlert.iter(&mut ctl, &many);
    assert_eq!(
        ctl.take_actions(),
        vec![show(red()), Action::Pause(0), show(black()), Action::Pause(0)]
    );
}

#[test]
fn alert_init_and_stop_show_red() {
    let mut ctl = Controller::new(60);
    MissleAlert.init(&mut ctl);
    MissleAlert.stop(&mut ctl);
    assert_eq!(ctl.take_actions(), vec![show(red()), show(red())]);
}

#[test]
fn temperature_maps_to_red_channel() {
    assert_eq!(temperature_channel(42_500), 42);
    assert_eq!(temperature_channel(999), 0);
    assert_eq!(temperature_channel(-3_000), 0);
    assert_eq!(temperature_channel(255_999), 255);
    assert_eq!(temperature_channel(300_000), 255);
    let mut ctl = Controller::new(60);
    let seen = Readings { probe_ok: true, temp_millicelsius: 61_700, alert_areas: 0 };
    CPUTemp.iter(&mut ctl, &seen);
    CPUTemp.stop(&mut ctl);
    assert_eq!(
        ctl.take_actions(),
        vec![show(Color::new(61, 0, 0)), Action::Pause(200), show(red())]
    );
}

#[test]
fn rainbow_draws_palette_once() {
    let palette = vec![Color::new(1, 2, 3), Color::new(4, 5, 6), Color::new(7, 8, 9)];
    let mut ctl = Controller::new(3);
    let effect = Rainbow::new(palette);
    effect.init(&mut ctl);
    effect.iter(&mut ctl, &Readings::calm());
    assert_eq!(
        ctl.take_actions(),
        vec![
            Action::Pause(500),
            set(0, Color::new(1, 2, 3)),
            Action::Pause(150),
            set(1, Color::new(4, 5, 6)),
            Action::Pause(150),
        ]
    );
}

#[test]
fn rainbow_with_short_palette() {
    let mut ctl = Controller::new(60);
    let effect = Rainbow::new(vec![Color::new(1, 1, 1)]);
    effect.init(&mut ctl);
    assert_eq!(
        ctl.take_actions(),
        vec![Action::Pause(500), set(0, Color::new(1, 1, 1)), Action::Pause(150)]
    );
}

#[test]
fn failed_iterate_stops_once() {
    let mut s = Session::new();
    assert_eq!(s.next_call(), Call::ClearLeds);
    s.complete(true);
    assert_eq!(s.next_call(), Call::Init);
    s.complete(true);
    for _ in 0..5 {
        assert_eq!(s.next_call(), Call::Iterate);
        s.complete(true);
    }
    assert_eq!(s.next_call(), Call::Iterate);
    s.complete(false);
    assert_eq!(s.next_call(), Call::Stop);
    s.complete(true);
    assert!(s.is_finished());
    assert!(s.has_failed());
    for ok in [true, false] {
        assert_eq!(s.next_call(), Call::Exit);
        s.complete(ok);
    }
}

#[test]
fn failed_init_stops_and_failed_clear_does_not() {
    let mut s = Session::new();
    s.complete(true);
    s.complete(false);
    assert_eq!(s.phase, Phase::Stopping);
    assert_eq!(s.next_call(), Call::Stop);
    s.complete(false);
    assert!(s.is_finished() && s.has_failed());

    let mut s = Session::new();
    s.complete(false);
    assert_eq!(s.next_call(), Call::Exit);
    assert!(s.has_failed());
}

#[test]
fn frames_round_trip() {
    for f in [
        Frame::SetLed { index: 0, color: Color::new(0, 0, 0) },
        Frame::SetLed { index: 59, color: Color::new(255, 128, 1) },
        Frame::ShowAll { color: Color::new(255, 0, 255) },
    ] {
        assert_eq!(decode_frame(&f.encode()), Some(f));
    }
    let bytes = set_led_frame(12, Color::new(3, 4, 5));
    assert_eq!(decode_frame(&bytes), Some(Frame::SetLed { index: 12, color: Color::new(3, 4, 5) }));
    assert_eq!(show_all_frame(Color::new(6, 7, 8)), vec![PREFIX, SHOW_ALL, 6, 7, 8]);
}

#[test]
fn malformed_frames_are_rejected() {
    assert_eq!(decode_frame(&[]), None);
    assert_eq!(decode_frame(&[PREFIX, SET_LED, 1, 2, 3]), None);
    assert_eq!(decode_frame(&[PREFIX, SHOW_ALL, 1, 2, 3, 4]), None);
    assert_eq!(decode_frame(&[0, SHOW_ALL, 1, 2, 3]), None);
    assert_eq!(decode_frame(&[PREFIX, 0x7F, 1, 2, 3]), None);
}
