use ntscrs::estimator::{
    extrapolate, measure_progress, ProgressSample, RenderJobTracker, NUM_PROGRESS_SAMPLES,
    PROGRESS_SAMPLE_TIME_DELTA, PROGRESS_SCALE,
};
use ntscrs::render_job::RenderJobState;

type State = RenderJobState<String>;

fn millionths(progress: f64) -> i64 {
    (progress * PROGRESS_SCALE as f64).round() as i64
}

fn millis(seconds: f64) -> i64 {
    (seconds * 1000.0).round() as i64
}

fn seconds(millis: i64) -> f64 {
    millis as f64 / 1000.0
}

#[test]
fn constants_are_those_of_the_window() {
    assert_eq!(NUM_PROGRESS_SAMPLES, 5);
    assert_eq!(PROGRESS_SAMPLE_TIME_DELTA, 1000);
    assert_eq!(PROGRESS_SCALE, 1_000_000);
}

#[test]
fn six_samples_one_per_second_estimate_five_seconds() {
    for t0 in [0.0f64, 12.5, 1000.25] {
        let mut tracker = RenderJobTracker::new();
        let samples = [(0.0, 0.0), (0.2, 1.0), (0.4, 2.0), (0.6, 3.0), (0.8, 4.0), (1.0, 5.0)];
        for (i, (progress, dt)) in samples.into_iter().enumerate() {
            tracker.sample(millionths(progress), millis(t0 + dt));
            assert_eq!(tracker.num_samples(), (i + 1).min(5));
        }
        assert_eq!(tracker.start_time(), Some(millis(t0)));
        let estimate = tracker.estimated_completion_time().unwrap();
        assert_eq!(estimate, millis(t0 + 5.0));
        assert_eq!(seconds(estimate), t0 + 5.0);
    }
}

#[test]
fn sixth_sample_is_set_against_the_evicted_one() {
    let mut tracker = RenderJobTracker::new();
    tracker.sample(0, 0);
    tracker.sample(100_000, 1000);
    tracker.sample(100_000, 2000);
    tracker.sample(100_000, 3000);
    tracker.sample(100_000, 4000);
    assert_eq!(tracker.num_samples(), 5);
    assert_eq!(tracker.estimated_completion_time(), Some(40_000));
    tracker.sample(500_000, 5000);
    assert_eq!(tracker.num_samples(), 5);
    assert_eq!(tracker.estimated_completion_time(), Some(10_000));
    tracker.sample(600_000, 6000);
    assert_eq!(tracker.num_samples(), 5);
    assert_eq!(tracker.estimated_completion_time(), Some(10_000));
    tracker.sample(600_000, 7000);
    assert_eq!(tracker.estimated_completion_time(), Some(10_000));
    tracker.sample(1_100_000, 8000);
    assert_eq!(tracker.estimated_completion_time(), Some(5_000));
}

#[test]
fn first_sample_fixes_the_start_and_gives_no_estimate() {
    let mut tracker = RenderJobTracker::new();
    assert_eq!(tracker.start_time(), None);
    assert_eq!(tracker.estimated_completion_time(), None);
    assert_eq!(tracker.num_samples(), 0);
    assert_eq!(tracker.last_progress(), 0);
    tracker.sample(250_000, 7000);
    assert_eq!(tracker.start_time(), Some(7000));
    assert_eq!(tracker.estimated_completion_time(), None);
    assert_eq!(tracker.num_samples(), 1);
}

#[test]
fn sample_younger_than_a_second_is_dropped() {
    let mut tracker = RenderJobTracker::new();
    tracker.sample(0, 10_000);
    tracker.sample(500_000, 10_999);
    assert_eq!(tracker.num_samples(), 1);
    assert_eq!(tracker.estimated_completion_time(), None);
    tracker.sample(500_000, 9_000);
    assert_eq!(tracker.num_samples(), 1);
    tracker.sample(500_000, 11_000);
    assert_eq!(tracker.num_samples(), 2);
    assert_eq!(tracker.estimated_completion_time(), Some(12_000));
}

#[test]
fn window_never_holds_more_than_five_samples() {
    let mut tracker = RenderJobTracker::new();
    for i in 0..50i64 {
        tracker.sample(i * 10_000, i * 1000);
        assert!(tracker.num_samples() <= NUM_PROGRESS_SAMPLES);
    }
    assert_eq!(tracker.num_samples(), 5);
    assert_eq!(tracker.start_time(), Some(0));
    assert_eq!(tracker.estimated_completion_time(), Some(100_000));
}

#[test]
fn stalled_progress_keeps_the_older_estimate() {
    let mut tracker = RenderJobTracker::new();
    tracker.sample(0, 0);
    tracker.sample(500_000, 1000);
    assert_eq!(tracker.estimated_completion_time(), Some(2000));
    tracker.sample(0, 2000);
    assert_eq!(tracker.num_samples(), 3);
    assert_eq!(tracker.estimated_completion_time(), Some(2000));
}

#[test]
fn stall_from_the_start_gives_no_estimate() {
    let mut tracker = RenderJobTracker::new();
    for i in 0..8i64 {
        tracker.sample(0, i * 1000);
    }
    assert_eq!(tracker.estimated_completion_time(), None);
    assert_eq!(tracker.num_samples(), 5);
}

#[test]
fn extrapolation_is_the_formula_rounded_down() {
    let base = ProgressSample { progress: 0, time: 0 };
    assert_eq!(extrapolate(0, base, 1_000_000, 5000), Some(5000));
    assert_eq!(extrapolate(100, base, 500_000, 5000), Some(10_100));
    assert_eq!(extrapolate(0, base, 3, 1), Some(333_333));
    assert_eq!(extrapolate(0, base, 300_000, 1000), Some(3333));
    assert_eq!(extrapolate(0, base, -300_000, 1000), Some(-3334));
    assert_eq!(extrapolate(0, base, 300_000, -1000), Some(-3334));
    assert_eq!(extrapolate(0, base, -300_000, -1000), Some(3333));
    assert_eq!(extrapolate(0, base, -500_000, 1000), Some(-2000));
    assert_eq!(extrapolate(7, base, 5, 0), Some(7));
    let late = ProgressSample { progress: 200_000, time: 4000 };
    assert_eq!(extrapolate(1000, late, 700_000, 6000), Some(5000));
}

#[test]
fn extrapolation_is_none_where_progress_stalls_or_the_time_is_out_of_range() {
    let base = ProgressSample { progress: 10, time: 0 };
    assert_eq!(extrapolate(0, base, 10, 5000), None);
    assert_eq!(extrapolate(0, base, 10, 0), None);
    let base = ProgressSample { progress: 0, time: i64::MIN };
    assert_eq!(extrapolate(0, base, 1, i64::MAX), None);
    assert_eq!(extrapolate(0, base, -1, i64::MAX), None);
    assert_eq!(extrapolate(0, base, i64::MAX, i64::MAX), Some(2_000_000));
    let base = ProgressSample { progress: 0, time: 0 };
    assert_eq!(extrapolate(i64::MAX, base, 1_000_000, 1), None);
    assert_eq!(extrapolate(i64::MAX, base, 1_000_000, 0), Some(i64::MAX));
    assert_eq!(extrapolate(i64::MIN, base, 1_000_000, -1), None);
    assert_eq!(extrapolate(i64::MIN, base, 1_000_000, 0), Some(i64::MIN));
    let base = ProgressSample { progress: i64::MIN, time: 0 };
    assert_eq!(extrapolate(0, base, i64::MAX, 1000), Some(0));
}

#[test]
fn progress_follows_the_state_and_the_graph() {
    assert_eq!(measure_progress(&State::Waiting, Some(5), Some(10), 77), 0);
    assert_eq!(measure_progress(&State::Complete { end_time: 1 }, Some(5), Some(10), 77), 1_000_000);
    for state in [State::Rendering, State::Paused, State::Error("e".to_string())] {
        assert_eq!(measure_progress(&state, Some(5), Some(10), 77), 500_000);
        assert_eq!(measure_progress(&state, Some(1), Some(3), 77), 333_333);
        assert_eq!(measure_progress(&state, Some(30), Some(10), 77), 3_000_000);
        assert_eq!(measure_progress(&state, Some(0), Some(10), 77), 0);
        assert_eq!(measure_progress(&state, None, Some(10), 77), 77);
        assert_eq!(measure_progress(&state, Some(5), None, 77), 77);
        assert_eq!(measure_progress(&state, None, None, 77), 77);
        assert_eq!(measure_progress(&state, Some(5), Some(0), 77), 77);
        assert_eq!(measure_progress(&state, Some(u64::MAX), Some(1), 77), i64::MAX);
        assert_eq!(measure_progress(&state, Some(u64::MAX), Some(u64::MAX), 77), 1_000_000);
    }
}

#[test]
fn observe_samples_only_while_waiting_or_rendering() {
    let mut tracker = RenderJobTracker::new();
    assert_eq!(tracker.observe(&State::Waiting, None, None, 0), 0);
    assert_eq!(tracker.num_samples(), 1);
    assert_eq!(tracker.observe(&State::Rendering, Some(1), Some(4), 1000), 250_000);
    assert_eq!(tracker.num_samples(), 2);
    assert_eq!(tracker.last_progress(), 250_000);
    assert_eq!(tracker.estimated_completion_time(), Some(4000));
    assert_eq!(tracker.observe(&State::Paused, Some(2), Some(4), 2000), 500_000);
    assert_eq!(tracker.num_samples(), 2);
    assert_eq!(tracker.last_progress(), 500_000);
    assert_eq!(tracker.observe(&State::Paused, None, None, 3000), 500_000);
    assert_eq!(tracker.observe(&State::Error("e".to_string()), Some(3), Some(4), 4000), 750_000);
    assert_eq!(tracker.num_samples(), 2);
    assert_eq!(tracker.observe(&State::Complete { end_time: 5000 }, None, None, 5000), 1_000_000);
    assert_eq!(tracker.num_samples(), 2);
    assert_eq!(tracker.estimated_completion_time(), Some(4000));
}

#[test]
fn time_remaining_is_shown_while_rendering_or_paused() {
    let mut tracker = RenderJobTracker::new();
    assert_eq!(tracker.time_remaining(&State::Rendering, 0), None);
    tracker.sample(0, 0);
    tracker.sample(100_000, 1000);
    assert_eq!(tracker.estimated_completion_time(), Some(10_000));
    assert_eq!(tracker.time_remaining(&State::Rendering, 1000), Some(9));
    assert_eq!(tracker.time_remaining(&State::Paused, 1001), Some(9));
    assert_eq!(tracker.time_remaining(&State::Paused, 999), Some(10));
    assert_eq!(tracker.time_remaining(&State::Rendering, 9_999), Some(1));
    assert_eq!(tracker.time_remaining(&State::Rendering, 10_000), Some(0));
    assert_eq!(tracker.time_remaining(&State::Rendering, 20_000), Some(0));
    assert_eq!(tracker.time_remaining(&State::Rendering, i64::MIN), Some(9_223_372_036_854_786));
    assert_eq!(tracker.time_remaining(&State::Waiting, 1000), None);
    assert_eq!(tracker.time_remaining(&State::Complete { end_time: 1 }, 1000), None);
    assert_eq!(tracker.time_remaining(&State::Error("e".to_string()), 1000), None);
}
