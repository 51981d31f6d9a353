use xosms::error::{InvalidReason, MediaError};
use xosms::timeline::{
    check_timeline, micros_to_ticks, seconds_to_micros, seek_detected, timeline_properties,
    Timeline, TimelineProperties, MICROS_PER_SECOND, TICKS_PER_MICRO,
};

#[test]
fn seconds_become_microseconds() {
    assert_eq!(seconds_to_micros(0), 0);
    assert_eq!(seconds_to_micros(1), 1_000_000);
    assert_eq!(seconds_to_micros(215), 215_000_000);
    assert_eq!(MICROS_PER_SECOND, 1_000_000);
}

#[test]
fn seconds_stop_at_the_end_of_the_range() {
    assert_eq!(seconds_to_micros(9_223_372_036_854), 9_223_372_036_854_000_000);
    assert_eq!(seconds_to_micros(9_223_372_036_855), i64::MAX);
    assert_eq!(seconds_to_micros(u64::MAX), i64::MAX);
}

#[test]
fn microseconds_become_ticks() {
    assert_eq!(TICKS_PER_MICRO, 10);
    assert_eq!(micros_to_ticks(0), 0);
    assert_eq!(micros_to_ticks(12_500_000), 125_000_000);
    assert_eq!(micros_to_ticks(-3), -30);
}

#[test]
fn ticks_stop_at_both_ends_of_the_range() {
    assert_eq!(micros_to_ticks(922_337_203_685_477_580), 9_223_372_036_854_775_800);
    assert_eq!(micros_to_ticks(922_337_203_685_477_581), i64::MAX);
    assert_eq!(micros_to_ticks(i64::MAX), i64::MAX);
    assert_eq!(micros_to_ticks(-922_337_203_685_477_580), -9_223_372_036_854_775_800);
    assert_eq!(micros_to_ticks(-922_337_203_685_477_581), i64::MIN);
    assert_eq!(micros_to_ticks(i64::MIN), i64::MIN);
}

#[test]
fn valid_timelines_are_accepted() {
    assert_eq!(check_timeline(0, 0), Ok(()));
    assert_eq!(check_timeline(10, 0), Ok(()));
    assert_eq!(check_timeline(10, 10), Ok(()));
    assert_eq!(check_timeline(i64::MAX, i64::MAX), Ok(()));
}

#[test]
fn negative_duration_is_named_first() {
    assert_eq!(
        check_timeline(-1, -1),
        Err(MediaError::InvalidArgument(InvalidReason::NegativeDuration))
    );
    assert_eq!(
        check_timeline(-1, 5),
        Err(MediaError::InvalidArgument(InvalidReason::NegativeDuration))
    );
}

#[test]
fn negative_position_is_turned_away() {
    assert_eq!(
        check_timeline(10, -1),
        Err(MediaError::InvalidArgument(InvalidReason::NegativePosition))
    );
}

#[test]
fn position_behind_the_end_is_turned_away() {
    assert_eq!(
        check_timeline(10, 11),
        Err(MediaError::InvalidArgument(InvalidReason::PositionBeyondDuration))
    );
}

#[test]
fn a_jump_within_the_second_is_a_seek() {
    // rate 1.0; position from 10.0 s to 12.5 s
    assert!(seek_detected(10_000_000, 12_500_000, 1_000_000, 0));
}

#[test]
fn a_small_step_is_no_seek() {
    // rate 1.0; position from 10.0 s to 10.5 s
    assert!(!seek_detected(10_000_000, 10_500_000, 1_000_000, 0));
    // a step of exactly the rate is none either
    assert!(!seek_detected(10_000_000, 11_000_000, 1_000_000, 0));
}

#[test]
fn a_jump_after_a_second_is_no_seek() {
    assert!(!seek_detected(10_000_000, 12_500_000, 1_000_000, 1));
    assert!(!seek_detected(10_000_000, 12_500_000, 1_000_000, 3600));
}

#[test]
fn a_jump_backwards_is_a_seek() {
    assert!(seek_detected(12_500_000, 10_000_000, 1_000_000, 0));
    assert!(!seek_detected(10_500_000, 10_000_000, 1_000_000, 0));
}

#[test]
fn seek_detection_bears_the_whole_range() {
    assert!(seek_detected(i64::MIN, i64::MAX, i64::MAX, 0));
    assert!(seek_detected(i64::MAX, i64::MIN, 0, 0));
    assert!(!seek_detected(0, i64::MAX, i64::MAX, 0));
    // every move is larger than a rate below zero
    assert!(seek_detected(5, 5, -1, 0));
}

#[test]
fn timeline_type_holds_what_it_was_made_of() {
    let timeline = Timeline::new(215_000_000, 12_500_000).unwrap();
    assert_eq!(timeline.duration(), 215_000_000);
    assert_eq!(timeline.position(), 12_500_000);
    let empty = Timeline::empty();
    assert_eq!(empty.duration(), 0);
    assert_eq!(empty.position(), 0);
}

#[test]
fn timeline_type_turns_faults_away() {
    assert_eq!(
        Timeline::new(-5, 0),
        Err(MediaError::InvalidArgument(InvalidReason::NegativeDuration))
    );
    assert_eq!(
        Timeline::new(5, -1),
        Err(MediaError::InvalidArgument(InvalidReason::NegativePosition))
    );
    assert_eq!(
        Timeline::new(5, 6),
        Err(MediaError::InvalidArgument(InvalidReason::PositionBeyondDuration))
    );
}

#[test]
fn timeline_properties_span_the_whole_track() {
    assert_eq!(
        timeline_properties(215_000_000, 12_500_000),
        TimelineProperties {
            start_time: 0,
            end_time: 215_000_000,
            position: 12_500_000,
            min_seek_time: 0,
            max_seek_time: 215_000_000,
        }
    );
}
