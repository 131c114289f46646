use spinning_square::frame_tracker::{update_accepts, FrameInfo, FrameTracker, TimePoint};

fn info(presentation_time: i64, presentation_interval: u64, publish_deadline: i64, base_time: i64) -> FrameInfo {
    FrameInfo { presentation_time, presentation_interval, publish_deadline, base_time }
}

#[test]
fn new_tracker_is_zeroed() {
    let t = FrameTracker::new();
    assert_eq!(t.frame_count(), 0);
    assert_eq!(t.frame_info(), info(0, 0, 0, 0));
    assert_eq!(t.presentation_time_delta(), 0);
}

#[test]
fn lag_snaps_to_frame_boundary() {
    let mut t = FrameTracker::new();
    let r = t.update(info(10, 16, 5, 0), TimePoint { ticks: 50 });
    // lag 50, offset 50 % 16 = 2, adjustment 48
    assert_eq!(r.base_time, 48);
    assert_eq!(r.publish_deadline, 5 + 48);
    assert_eq!(r.presentation_time, 10 + 48);
    assert_eq!(r.presentation_interval, 16);
    assert_eq!(t.frame_info(), r);
    assert_eq!(t.frame_count(), 1);
    assert_eq!(t.presentation_time_delta(), 48);
}

#[test]
fn lag_under_one_period_is_kept() {
    let mut t = FrameTracker::new();
    let r = t.update(info(60, 16, 45, 40), TimePoint { ticks: 50 });
    assert_eq!(r, info(60, 16, 45, 40));
}

#[test]
fn zero_interval_disables_lag_compensation() {
    let mut t = FrameTracker::new();
    let r = t.update(info(7, 0, 3, 1), TimePoint { ticks: 1000 });
    assert_eq!(r, info(7, 0, 3, 1));
}

#[test]
fn future_base_is_clamped_to_now() {
    let mut t = FrameTracker::new();
    let r = t.update(info(200, 16, 150, 120), TimePoint { ticks: 100 });
    assert_eq!(r.base_time, 100);
    assert_eq!(r.publish_deadline, 150);
    assert_eq!(r.presentation_time, 200);
}

#[test]
fn future_base_respects_monotonic_floor() {
    let mut t = FrameTracker::new();
    t.update(info(300, 0, 300, 300), TimePoint { ticks: 300 });
    let r = t.update(info(400, 0, 400, 400), TimePoint { ticks: 250 });
    assert_eq!(r.base_time, 300);
}

#[test]
fn deadline_raised_to_base() {
    let mut t = FrameTracker::new();
    let r = t.update(info(90, 0, 10, 80), TimePoint { ticks: 100 });
    assert_eq!(r.publish_deadline, 80);
    assert!(r.publish_deadline >= r.base_time);
}

#[test]
fn deadline_raised_then_shifted() {
    let mut t = FrameTracker::new();
    let r = t.update(info(0, 10, 0, 5), TimePoint { ticks: 37 });
    // base 5, deadline raised to 5, lag 32, offset 2, adjustment 30
    assert_eq!(r.base_time, 35);
    assert_eq!(r.publish_deadline, 35);
    assert_eq!(r.presentation_time, 30);
}

#[test]
fn regressing_inputs_stay_monotonic() {
    let mut t = FrameTracker::new();
    let inputs = [
        (info(100, 0, 100, 100), 100),
        (info(50, 0, 50, 50), 120),
        (info(160, 16, 150, 140), 160),
        (info(10, 16, 10, 0), 170),
        (info(0, 0, 0, 0), 180),
    ];
    let mut last_base = 0;
    let mut last_presentation = 0;
    for (input, now) in inputs.iter() {
        let r = t.update(*input, TimePoint { ticks: *now });
        assert!(r.base_time >= last_base);
        assert!(r.presentation_time >= last_presentation);
        last_base = r.base_time;
        last_presentation = r.presentation_time;
    }
    assert_eq!(t.frame_count(), 5);
}

#[test]
fn delta_records_base_movement() {
    let mut t = FrameTracker::new();
    t.update(info(20, 0, 20, 20), TimePoint { ticks: 20 });
    t.update(info(36, 0, 36, 36), TimePoint { ticks: 40 });
    assert_eq!(t.presentation_time_delta(), 16);
    t.update(info(10, 0, 10, 10), TimePoint { ticks: 50 });
    assert_eq!(t.presentation_time_delta(), 0);
}

#[test]
fn unset_record_is_zero() {
    assert_eq!(FrameInfo::unset(), info(0, 0, 0, 0));
}

#[test]
fn monotonic_floor_can_pass_the_deadline() {
    let mut t = FrameTracker::new();
    t.update(info(100, 0, 100, 100), TimePoint { ticks: 100 });
    let r = t.update(info(50, 0, 50, 50), TimePoint { ticks: 110 });
    assert_eq!(r.base_time, 100);
    assert_eq!(r.publish_deadline, 50);
}

#[test]
fn admissible_timing() {
    assert!(update_accepts(info(10, 16, 5, 0), TimePoint { ticks: 50 }));
    assert!(!update_accepts(info(-1, 16, 5, 0), TimePoint { ticks: 50 }));
    assert!(!update_accepts(info(0, 0, 0, 0), TimePoint { ticks: -1 }));
    assert!(!update_accepts(info(0, 16, i64::MAX - 10, 0), TimePoint { ticks: 50 }));
    assert!(update_accepts(info(0, 16, i64::MAX - 48, 0), TimePoint { ticks: 50 }));
    assert!(update_accepts(info(0, 0, i64::MAX, 0), TimePoint { ticks: 50 }));
}
