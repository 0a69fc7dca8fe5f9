use tpmiddle::state::ScrollState;
use tpmiddle::units::{Delta, Tick, Wheel};

fn vertical(mag: i8) -> Wheel<Tick<i8>> {
    Wheel::Vertical(Tick::from_raw(mag))
}

fn horizontal(mag: i8) -> Wheel<Tick<i8>> {
    Wheel::Horizontal(Tick::from_raw(mag))
}

fn delta_of(w: Wheel<Delta>) -> i32 {
    w.value().raw()
}

/// Runs the clock until the machine goes idle, collecting emitted deltas.
/// Panics if the machine scrolls past `limit` ticks.
fn drain(state: &mut ScrollState, limit: usize) -> Vec<Wheel<Delta>> {
    let mut out = Vec::new();
    for _ in 0..limit {
        match state.tick() {
            Some(d) => out.push(d),
            None => return out,
        }
    }
    panic!("machine did not go idle within {} ticks", limit);
}

#[test]
fn single_light_tick_gives_short_positive_burst_then_idle() {
    let mut state = ScrollState::idle();
    let started = state.feed(0, vertical(1));
    assert!(started);

    // The first two emissions are exactly determined by the fixed-point
    // algorithm: the first spend stays below one device unit, the second
    // crosses it.
    let first = state.tick().expect("live session must emit");
    assert_eq!(delta_of(first), 0);
    assert!(matches!(first, Wheel::Vertical(_)));
    let second = state.tick().expect("live session must emit");
    assert_eq!(delta_of(second), 1);

    let rest = drain(&mut state, 500);
    let mut sum: i64 = 1;
    for d in &rest {
        let v = delta_of(*d);
        assert!(v >= 0, "deltas of an upward session never flip sign");
        assert!(matches!(d, Wheel::Vertical(_)));
        sum += v as i64;
    }
    assert!(sum > 0);
    // One light tick stands for 120 device units at most.
    assert!(sum <= 120);
    // Idle stays idle.
    assert_eq!(state.tick(), None);
}

#[test]
fn sustained_fast_feed_ramps_to_sustained_positive_rate() {
    let mut state = ScrollState::idle();
    let mut deltas: Vec<i32> = Vec::new();

    // Feeds every 15 ms with magnitude 3, clock at 120 Hz, for one second.
    let mut now: u64 = 0;
    let mut next_feed: u64 = 0;
    let mut next_tick: u64 = 8_333;
    while now < 1_000_000 {
        if next_feed <= next_tick {
            now = next_feed;
            state.feed(now, vertical(3));
            next_feed += 15_000;
        } else {
            now = next_tick;
            if let Some(d) = state.tick() {
                assert!(matches!(d, Wheel::Vertical(_)));
                assert!(delta_of(d) >= 0);
                deltas.push(delta_of(d));
            }
            next_tick += 8_333;
        }
    }

    // The tail after the last feed drains and the machine goes idle.
    let tail = drain(&mut state, 1_000);
    let mut sum: i64 = deltas.iter().map(|d| *d as i64).sum();
    for d in &tail {
        assert!(delta_of(*d) >= 0);
        sum += delta_of(*d) as i64;
    }

    // Input pressure was about 200 wheel ticks (24_000 device units); the
    // output settles near it.
    assert!(sum > 10_000, "sustained feed must sustain output, got {}", sum);
    assert!(sum <= 26_000, "output cannot outrun input pressure, got {}", sum);

    // The rate ramps up and stays sustained: the second half of the steady
    // window keeps emitting positive deltas.
    let half = deltas.len() / 2;
    let late_positive = deltas[half..].iter().filter(|d| **d > 0).count();
    assert!(late_positive * 10 >= deltas[half..].len() * 5);
}

#[test]
fn axis_change_abandons_session_and_starts_fresh() {
    let mut state = ScrollState::idle();
    assert!(state.feed(0, vertical(1)));
    state.tick();

    // The vertical session still holds pressure, but a horizontal tick
    // replaces it outright.
    let restarted = state.feed(1_000, horizontal(1));
    assert!(restarted, "axis change must start a new session");
    for _ in 0..500 {
        match state.tick() {
            Some(d) => assert!(matches!(d, Wheel::Horizontal(_))),
            None => return,
        }
    }
    panic!("machine did not go idle");
}

#[test]
fn direction_change_abandons_session_and_starts_fresh() {
    let mut state = ScrollState::idle();
    assert!(state.feed(0, vertical(2)));
    state.tick();
    let restarted = state.feed(1_000, vertical(-2));
    assert!(restarted, "direction change must start a new session");
    for _ in 0..500 {
        match state.tick() {
            Some(d) => assert!(delta_of(d) <= 0, "downward session emits non-positive deltas"),
            None => return,
        }
    }
    panic!("machine did not go idle");
}

#[test]
fn same_direction_feed_continues_session() {
    let mut state = ScrollState::idle();
    assert!(state.feed(0, vertical(1)));
    assert!(!state.feed(15_000, vertical(1)), "same axis and direction continues");
    assert!(!state.feed(30_000, vertical(3)), "magnitude does not matter");
}

#[test]
fn explicit_stop_is_immediate_and_idempotent() {
    let mut state = ScrollState::idle();

    // Stop on an idle machine leaves it idle and the next tick emits
    // nothing.
    state.stop();
    assert_eq!(state.tick(), None);

    // Stop mid-burst: the very next tick returns nothing, with no grace
    // period.
    state.feed(0, vertical(3));
    state.tick();
    state.tick();
    state.stop();
    assert_eq!(state.tick(), None);
    assert_eq!(state.tick(), None);
}

#[test]
fn negative_session_emits_negative_total() {
    let mut state = ScrollState::idle();
    state.feed(0, vertical(-3));
    state.feed(15_000, vertical(-3));
    state.feed(30_000, vertical(-3));
    let out = drain(&mut state, 1_000);
    let sum: i64 = out.iter().map(|d| delta_of(*d) as i64).sum();
    assert!(sum < 0);
    for d in &out {
        assert!(delta_of(*d) <= 0);
    }
}

#[test]
fn fast_feed_peaks_higher_than_slow_feed_of_same_total() {
    // Twenty light ticks, fed fast (15 ms apart) and slow (150 ms apart):
    // identical total magnitude, but the fast cadence reaches a higher
    // per-tick output.
    let run = |gap_us: u64| -> i32 {
        let mut state = ScrollState::idle();
        let mut peak: i32 = 0;
        let mut now: u64 = 0;
        let mut next_feed: u64 = 0;
        let mut next_tick: u64 = 8_333;
        let mut fed: usize = 0;
        loop {
            if fed < 20 && next_feed <= next_tick {
                now = next_feed;
                state.feed(now, vertical(1));
                next_feed += gap_us;
                fed += 1;
            } else {
                now = next_tick;
                match state.tick() {
                    Some(d) => {
                        if delta_of(d) > peak {
                            peak = delta_of(d);
                        }
                    },
                    None => {
                        if fed >= 20 {
                            return peak;
                        }
                    },
                }
                next_tick += 8_333;
            }
            assert!(now < 60_000_000, "run must terminate");
        }
    };
    let fast_peak = run(15_000);
    let slow_peak = run(150_000);
    assert!(
        fast_peak > slow_peak,
        "fast {} must beat slow {}",
        fast_peak,
        slow_peak
    );
}
