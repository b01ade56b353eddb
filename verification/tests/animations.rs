use swift_run::animations::{
    ease_out_back, ease_out_cubic, ease_out_quad, AnimType, AnimationState, ClockStep, Progress,
};
use swift_run::ratio::{slide, Ratio};

fn value(r: Ratio) -> f64 {
    assert!(r.den > 0);
    r.num as f64 / r.den as f64
}

fn at(elapsed: u64, duration: u16) -> Progress {
    Progress::new(elapsed, duration)
}

#[test]
fn quad_starts_at_zero_and_ends_at_one() {
    assert_eq!(ease_out_quad(at(0, 250)), Ratio { num: 0, den: 62500 });
    assert_eq!(ease_out_quad(at(250, 250)), Ratio { num: 1, den: 1 });
    assert_eq!(value(ease_out_quad(at(0, 250))), 0.0);
    assert_eq!(value(ease_out_quad(at(250, 250))), 1.0);
}

#[test]
fn quad_half_way_is_three_quarters() {
    assert_eq!(ease_out_quad(at(125, 250)), Ratio { num: 46875, den: 62500 });
    assert_eq!(value(ease_out_quad(at(125, 250))), 0.75);
}

#[test]
fn quad_never_falls() {
    let mut last = -1.0;
    for ms in 0..=150u64 {
        let v = value(ease_out_quad(at(ms, 150)));
        assert!(v >= last, "fell at {} ms", ms);
        assert!((0.0..=1.0).contains(&v));
        last = v;
    }
    assert_eq!(last, 1.0);
}

#[test]
fn cubic_starts_at_zero_and_ends_at_one() {
    assert_eq!(value(ease_out_cubic(at(0, 200))), 0.0);
    assert_eq!(ease_out_cubic(at(200, 200)), Ratio { num: 1, den: 1 });
    assert_eq!(ease_out_cubic(at(125, 250)), Ratio { num: 13671875, den: 15625000 });
    assert_eq!(value(ease_out_cubic(at(125, 250))), 0.875);
}

#[test]
fn cubic_never_falls() {
    let mut last = -1.0;
    for ms in 0..=200u64 {
        let v = value(ease_out_cubic(at(ms, 200)));
        assert!(v >= last);
        last = v;
    }
}

#[test]
fn back_ends_at_exactly_one_and_overshoots_before() {
    assert_eq!(ease_out_back(at(300, 300)), Ratio { num: 100000, den: 100000 });
    assert_eq!(ease_out_back(at(1, 2)), Ratio { num: 870158, den: 800000 });
    assert!(value(ease_out_back(at(150, 300))) > 1.0);
    assert_eq!(ease_out_back(at(0, 300)).num, 0);
}

#[test]
fn back_matches_its_formula() {
    for ms in [0u64, 30, 75, 150, 225, 299, 300] {
        let t = ms as f64 / 300.0;
        let c1 = 1.70158;
        let c3 = c1 + 1.0;
        let expected = 1.0 + c3 * (t - 1.0).powi(3) + c1 * (t - 1.0).powi(2);
        assert!((value(ease_out_back(at(ms, 300))) - expected).abs() < 1e-9);
    }
}

#[test]
fn progress_saturates_at_the_duration() {
    assert_eq!(at(10, 250), Progress { elapsed: 10, duration: 250 });
    assert_eq!(at(250, 250), Progress { elapsed: 250, duration: 250 });
    assert_eq!(at(u64::MAX, 250), Progress { elapsed: 250, duration: 250 });
    assert!(at(250, 250).complete());
    assert!(!at(249, 250).complete());
    assert_eq!(at(100, 250).fraction(), Ratio { num: 100, den: 250 });
    assert_eq!(at(300, 250).fraction(), Ratio { num: 1, den: 1 });
}

#[test]
fn an_animation_of_no_duration_is_complete_at_once() {
    assert!(at(0, 0).complete());
    assert_eq!(ease_out_quad(at(0, 0)), Ratio { num: 1, den: 1 });
    assert_eq!(ease_out_cubic(at(0, 0)), Ratio { num: 1, den: 1 });
}

#[test]
fn slide_rounds_toward_zero() {
    let seven_eighths = Ratio { num: 7, den: 8 };
    assert_eq!(slide(900, 600, seven_eighths), 638);
    assert_eq!(slide(600, 900, seven_eighths), 862);
    assert_eq!(slide(0, 10, Ratio { num: 0, den: 1 }), 0);
    assert_eq!(slide(0, 10, Ratio { num: 1, den: 1 }), 10);
    assert_eq!(slide(i32::MIN, i32::MAX, Ratio { num: 1, den: 1 }), i32::MAX);
    assert_eq!(slide(i32::MAX, i32::MIN, Ratio { num: 1, den: 2 }), 0);
}

#[test]
fn clock_runs_then_resolves_to_idle() {
    let mut clock = AnimationState::idle();
    assert_eq!(clock.tick(5), ClockStep::Asleep);
    clock.start(AnimType::Entering, 250, 1000);
    assert!(clock.active());
    assert_eq!(
        clock.tick(1100),
        ClockStep::Running { kind: AnimType::Entering, progress: Progress { elapsed: 100, duration: 250 } }
    );
    assert_eq!(clock.phase, AnimType::Entering);
    assert_eq!(clock.tick(1250), ClockStep::Finished { kind: AnimType::Entering });
    assert_eq!(clock.phase, AnimType::Idle);
    assert_eq!(clock.tick(1300), ClockStep::Asleep);
}

#[test]
fn a_second_exit_request_keeps_the_progress() {
    let mut clock = AnimationState::idle();
    clock.start(AnimType::Exiting, 150, 1000);
    let before = clock;
    clock.start(AnimType::Exiting, 150, 1100);
    assert_eq!(clock, before);
    assert_eq!(clock.progress(1100), Progress { elapsed: 100, duration: 150 });
}

#[test]
fn an_entrance_requested_during_an_exit_starts_afresh() {
    let mut clock = AnimationState::idle();
    clock.start(AnimType::Exiting, 150, 1000);
    clock.start(AnimType::Entering, 250, 1100);
    assert_eq!(clock, AnimationState { phase: AnimType::Entering, start_ms: 1100, duration_ms: 250 });
}

#[test]
fn a_reading_before_the_start_counts_as_the_start() {
    let mut clock = AnimationState::idle();
    clock.start(AnimType::Entering, 250, 1000);
    assert_eq!(clock.progress(900), Progress { elapsed: 0, duration: 250 });
}
