use ferrink::device::{
    checked_background_index, checked_light_level, checked_step, literary_clock_interval_label,
    next_literary_clock_interval,
};

#[test]
fn only_single_steps_cross_the_ui_boundary() {
    assert_eq!(checked_step(-1), Some(-1));
    assert_eq!(checked_step(1), Some(1));
    assert_eq!(checked_step(0), None);
    assert_eq!(checked_step(2), None);
    assert_eq!(checked_step(i32::MAX), None);
}

#[test]
fn absolute_light_levels_are_bounded_to_the_reviewed_range() {
    assert_eq!(checked_light_level(0), Some(0));
    assert_eq!(checked_light_level(24), Some(24));
    assert_eq!(checked_light_level(-1), None);
    assert_eq!(checked_light_level(25), None);
    assert_eq!(checked_light_level(i32::MAX), None);
}

#[test]
fn background_indices_are_bounded_before_reaching_the_device_port() {
    assert_eq!(checked_background_index(0), Some(0));
    assert_eq!(checked_background_index(15), Some(15));
    assert_eq!(checked_background_index(-1), None);
    assert_eq!(checked_background_index(16), None);
    assert_eq!(checked_background_index(i32::MAX), None);
}

#[test]
fn literary_clock_interval_cycle_is_closed_and_readable() {
    let cycle = [0, 1, 5, 15, 30, 60, 0];
    for pair in cycle.windows(2) {
        assert_eq!(next_literary_clock_interval(pair[0]), pair[1]);
    }
    assert_eq!(next_literary_clock_interval(2), 0);
    assert_eq!(literary_clock_interval_label(0), "Off");
    assert_eq!(literary_clock_interval_label(60), "Every hour");
}
