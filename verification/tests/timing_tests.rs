use openarm_nodes::timing::{
    action_millis_from_nanos, action_millis_from_reading, choose_action_duration, feedback_plan,
};

#[test]
fn duration_from_nanos_exact_values() {
    assert_eq!(action_millis_from_nanos(0), 1000);
    assert_eq!(action_millis_from_nanos(1999), 2999);
    assert_eq!(action_millis_from_nanos(2000), 1000);
    assert_eq!(action_millis_from_nanos(123_456_789), 1000 + 123_456_789 % 2000);
    assert_eq!(action_millis_from_nanos(999_999_999), 1000 + 1999);
}

#[test]
fn chosen_duration_in_window() {
    for _ in 0..100 {
        let d = choose_action_duration();
        assert!((1000..3000).contains(&d), "duration {d} out of range");
    }
}

#[test]
fn feedback_plan_exact_values() {
    assert_eq!(feedback_plan(1000), (5, 200));
    assert_eq!(feedback_plan(2999), (14, 214));
    assert_eq!(feedback_plan(1999), (9, 222));
    assert_eq!(feedback_plan(0), (1, 1));
    assert_eq!(feedback_plan(1), (1, 1));
    assert_eq!(feedback_plan(150), (1, 150));
    assert_eq!(feedback_plan(399), (1, 399));
    assert_eq!(feedback_plan(400), (2, 200));
}

#[test]
fn feedback_plan_truncates_like_casts() {
    // 200 * (2^32 + 1) ms: the step count wraps to 1 and the share is the whole duration.
    let total: u128 = 200 * ((1u128 << 32) + 1);
    assert_eq!(feedback_plan(total), (1, total as u64));
}

#[test]
fn feedback_plan_paces_whole_duration() {
    for total in 1u128..5000 {
        let (steps, step_ms) = feedback_plan(total);
        let steps = steps as u128;
        let step_ms = step_ms as u128;
        assert!(steps >= 1);
        assert!(steps * step_ms <= total);
        assert!(total < steps * (step_ms + 1));
        if total >= 200 {
            assert!(step_ms >= 200);
        }
    }
}

#[test]
fn duration_from_clock_reading() {
    assert_eq!(action_millis_from_reading(None), 1000);
    assert_eq!(action_millis_from_reading(Some(0)), 1000);
    assert_eq!(action_millis_from_reading(Some(3500)), 2500);
    assert_eq!(action_millis_from_reading(Some(999_999_999)), 2999);
}
