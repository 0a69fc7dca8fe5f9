use tpmiddle::args::Args;
use tpmiddle::control::{
    worker_step, ControlEvent, ScrollControlType, ScrollControlTypeParseError,
};
use tpmiddle::input::Event;
use tpmiddle::middle_button_state::MiddleButtonState;
use tpmiddle::state::ScrollState;
use tpmiddle::tpmiddle::{dispatch_event, ScrollAction};
use tpmiddle::units::{Delta, Direction, Tick, Wheel};

#[test]
fn scroll_control_type_parsing() {
    assert_eq!(ScrollControlType::from_str("classic"), Ok(ScrollControlType::Classic));
    assert_eq!(ScrollControlType::from_str("smooth"), Ok(ScrollControlType::Smooth));
    match ScrollControlType::from_str("wavy") {
        Err(ScrollControlTypeParseError::InvalidScrollControlType(m)) => assert_eq!(m, "wavy"),
        other => panic!("unexpected: {:?}", other),
    }
}

#[test]
fn args_fn_lock_combinations() {
    let base = Args {
        sensitivity: None,
        fn_lock: false,
        no_fn_lock: false,
        scroll: ScrollControlType::Classic,
        log: None,
    };
    assert_eq!(base.fn_lock(), None);
    let on = Args { fn_lock: true, ..base };
    assert_eq!(on.fn_lock(), Some(true));
    let off = Args {
        sensitivity: None,
        fn_lock: false,
        no_fn_lock: true,
        scroll: ScrollControlType::Smooth,
        log: None,
    };
    assert_eq!(off.fn_lock(), Some(false));
}

#[test]
fn quick_press_and_release_is_a_click() {
    let mut state = MiddleButtonState::Idle;
    assert_eq!(dispatch_event(&mut state, &Event::ButtonDown, 1_000), ScrollAction::Nothing);
    let a = dispatch_event(&mut state, &Event::ButtonUp, 400_000);
    assert_eq!(a, ScrollAction::StopAndClick);
}

#[test]
fn slow_release_is_no_click() {
    let mut state = MiddleButtonState::Idle;
    dispatch_event(&mut state, &Event::ButtonDown, 0);
    let a = dispatch_event(&mut state, &Event::ButtonUp, 900_000);
    assert_eq!(a, ScrollAction::StopOnly);
    assert_eq!(state, MiddleButtonState::Idle);
}

#[test]
fn scrolling_turns_the_gesture_into_a_scroll() {
    let mut state = MiddleButtonState::Idle;
    dispatch_event(&mut state, &Event::ButtonDown, 0);
    let a = dispatch_event(&mut state, &Event::Vertical(2), 10_000);
    assert_eq!(a, ScrollAction::Scroll(Wheel::Vertical(Tick::from_raw(2))));
    assert_eq!(state, MiddleButtonState::Scroll);

    // The release after scrolling is not a click.
    let b = dispatch_event(&mut state, &Event::ButtonUp, 20_000);
    assert_eq!(b, ScrollAction::StopOnly);

    let mut h = MiddleButtonState::Idle;
    let c = dispatch_event(&mut h, &Event::Horizontal(-1), 0);
    assert_eq!(c, ScrollAction::Scroll(Wheel::Horizontal(Tick::from_raw(-1))));
}

#[test]
fn middle_button_state_up_quirks() {
    // A release on an idle state is no click.
    let mut state = MiddleButtonState::Idle;
    assert!(!state.up(0));
    assert_eq!(state, MiddleButtonState::Idle);

    // A quick release reports the click and keeps the pending press.
    let mut down = MiddleButtonState::Idle;
    down.down(100);
    assert!(down.up(200));
    assert_eq!(down, MiddleButtonState::MiddleDown { time_us: 100 });

    // A late release resets.
    assert!(!down.up(800_000));
    assert_eq!(down, MiddleButtonState::Idle);
}

#[test]
fn worker_step_drives_machine_and_clock() {
    let mut state = ScrollState::idle();

    // A clock tick while idle emits nothing and stops the clock.
    let idle = worker_step(&mut state, ControlEvent::Clock);
    assert_eq!(idle.emit, None);
    assert!(idle.stop_clock);
    assert!(!idle.start_clock);

    // A wheel tick starts the clock for a fresh session.
    let fed = worker_step(
        &mut state,
        ControlEvent::Tick { now_us: 0, tick: Wheel::Vertical(Tick::from_raw(1)) },
    );
    assert!(fed.start_clock);
    assert_eq!(fed.emit, None);

    // A clock tick on the live session emits a delta.
    let ticked = worker_step(&mut state, ControlEvent::Clock);
    assert!(ticked.emit.is_some());
    assert!(!ticked.stop_clock);

    // A stop halts the clock at once.
    let stopped = worker_step(&mut state, ControlEvent::Stop);
    assert!(stopped.stop_clock);
    let after = worker_step(&mut state, ControlEvent::Clock);
    assert_eq!(after.emit, None);
    assert!(after.stop_clock);
}

#[test]
fn unit_conversions() {
    let t = Wheel::Vertical(Tick::from_raw(-3));
    let d = t.into_delta();
    assert_eq!(d.value().raw(), -360);
    assert!(matches!(d, Wheel::Vertical(_)));

    let dir = t.into_direction();
    assert_eq!(dir.value(), Direction(-1));

    let h = Wheel::Horizontal(Tick::from_raw(5));
    assert!(matches!(h.into_delta(), Wheel::Horizontal(_)));
    assert_eq!(h.into_direction().value(), Direction(1));

    let unit = h.into_direction().into_tick();
    assert_eq!(unit.value().raw(), 1);
    assert!(matches!(unit, Wheel::Horizontal(_)));

    let withv = h.with_value(Delta::from_raw(7));
    assert_eq!(withv.value().raw(), 7);
    assert!(matches!(withv, Wheel::Horizontal(_)));

    assert_eq!(Tick::from_raw(42i8).raw(), 42);
    assert_eq!(Delta::from_raw(-9).raw(), -9);
}
