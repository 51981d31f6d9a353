//! Timeline arithmetic on whole microseconds: the validity of a timeline, the
//! conversions between the units of the platforms, and the rule that tells a
//! jump of the position from ordinary playback.
//!
//! Every time in the library is a signed count of microseconds, the unit of
//! the bus interface. A conversion that would leave the range of `i64` stops
//! at the end of the range.

use crate::error::{InvalidReason, MediaError};
use vstd::prelude::*;

verus! {

/// Microseconds in one second. A playback rate of 1 is this many microseconds
/// of media for each second of wall-clock time.
pub const MICROS_PER_SECOND: i64 = 1_000_000;

/// Ticks of 100 nanoseconds in one microsecond.
pub const TICKS_PER_MICRO: i64 = 10;

/// The nearest value to `value` that an `i64` holds.
pub open spec fn saturate(value: int) -> int {
    if value < i64::MIN {
        i64::MIN as int
    } else if value > i64::MAX {
        i64::MAX as int
    } else {
        value
    }
}

/// The distance between two points of a timeline.
pub open spec fn distance(from: int, to: int) -> int {
    if from <= to {
        to - from
    } else {
        from - to
    }
}

/// Why a timeline is turned away, if it is: the duration is looked at first,
/// then the position, then their order.
pub open spec fn timeline_fault(duration: int, position: int) -> Option<InvalidReason> {
    if duration < 0 {
        Some(InvalidReason::NegativeDuration)
    } else if position < 0 {
        Some(InvalidReason::NegativePosition)
    } else if position > duration {
        Some(InvalidReason::PositionBeyondDuration)
    } else {
        None
    }
}

/// A timeline is valid when `0 <= position <= duration`.
pub open spec fn timeline_valid(duration: int, position: int) -> bool {
    0 <= position <= duration
}

/// A change of position counts as a jump when it is larger than what one
/// second of playback at `rate` covers and less than one second of wall-clock
/// time has passed since the position was last set.
pub open spec fn is_seek(previous: int, position: int, rate: int, elapsed_secs: int) -> bool {
    distance(previous, position) > rate && elapsed_secs < 1
}

/// A timeline has a fault exactly when it is not valid.
pub proof fn lemma_fault_iff_invalid(duration: int, position: int)
    ensures
        timeline_fault(duration, position) is None <==> timeline_valid(duration, position),
{
}

/// Whole seconds as microseconds, stopping at `i64::MAX`.
pub fn seconds_to_micros(seconds: u64) -> (micros: i64)
    ensures
        micros == saturate(seconds * MICROS_PER_SECOND),
{
    if seconds > 9_223_372_036_854u64 {
        i64::MAX
    } else {
        (seconds * 1_000_000u64) as i64
    }
}

/// Microseconds as ticks of 100 nanoseconds, stopping at the ends of `i64`.
pub fn micros_to_ticks(micros: i64) -> (ticks: i64)
    ensures
        ticks == saturate(micros * TICKS_PER_MICRO),
{
    if micros > 922_337_203_685_477_580i64 {
        i64::MAX
    } else if micros < -922_337_203_685_477_580i64 {
        i64::MIN
    } else {
        micros * 10
    }
}

/// Accepts a timeline with `0 <= position <= duration` and turns every other
/// away, naming the first fault found.
pub fn check_timeline(duration: i64, position: i64) -> (checked: Result<(), MediaError>)
    ensures
        checked is Ok <==> timeline_valid(duration as int, position as int),
        match timeline_fault(duration as int, position as int) {
            Some(reason) => checked == Err::<(), MediaError>(MediaError::InvalidArgument(reason)),
            None => checked is Ok,
        },
{
    if duration < 0 {
        Err(MediaError::InvalidArgument(InvalidReason::NegativeDuration))
    } else if position < 0 {
        Err(MediaError::InvalidArgument(InvalidReason::NegativePosition))
    } else if position > duration {
        Err(MediaError::InvalidArgument(InvalidReason::PositionBeyondDuration))
    } else {
        Ok(())
    }
}

/// Whether moving the position from `previous` to `position` is a jump.
pub fn seek_detected(previous: i64, position: i64, rate: i64, elapsed_secs: u64) -> (seek: bool)
    ensures
        seek == is_seek(previous as int, position as int, rate as int, elapsed_secs as int),
{
    let from: i128 = previous as i128;
    let to: i128 = position as i128;
    let moved: i128 = if from <= to {
        to - from
    } else {
        from - to
    };
    moved > rate as i128 && elapsed_secs < 1
}

/// A valid timeline: a duration and a position on it.
#[derive(Clone, Copy, Debug, PartialEq, Eq)]
pub struct Timeline {
    duration: i64,
    position: i64,
}

impl Timeline {
    #[verifier::type_invariant]
    spec fn position_on_timeline(self) -> bool {
        0 <= self.position <= self.duration
    }

    /// The length of the timeline.
    pub closed spec fn spec_duration(&self) -> int {
        self.duration as int
    }

    /// The position on the timeline.
    pub closed spec fn spec_position(&self) -> int {
        self.position as int
    }

    /// The timeline of a session for which none was set: it has no length.
    pub fn empty() -> (timeline: Timeline)
        ensures
            timeline.spec_duration() == 0,
            timeline.spec_position() == 0,
    {
        Timeline { duration: 0, position: 0 }
    }

    /// The timeline with the given duration and position, if they make one.
    pub fn new(duration: i64, position: i64) -> (made: Result<Timeline, MediaError>)
        ensures
            match timeline_fault(duration as int, position as int) {
                Some(reason) => made == Err::<Timeline, MediaError>(
                    MediaError::InvalidArgument(reason),
                ),
                None => made matches Ok(timeline) && timeline.spec_duration() == duration
                    && timeline.spec_position() == position,
            },
    {
        match check_timeline(duration, position) {
            Err(error) => Err(error),
            Ok(()) => Ok(Timeline { duration, position }),
        }
    }

    /// The length of the timeline, which is not below the position.
    pub fn duration(&self) -> (duration: i64)
        ensures
            duration == self.spec_duration(),
            0 <= self.spec_position() <= duration,
    {
        proof {
            use_type_invariant(self);
        }
        self.duration
    }

    /// The position, which lies on the timeline.
    pub fn position(&self) -> (position: i64)
        ensures
            position == self.spec_position(),
            0 <= position <= self.spec_duration(),
    {
        proof {
            use_type_invariant(self);
        }
        self.position
    }
}

/// The timeline as the transport controls of Windows take it: five points in
/// microseconds.
#[derive(Clone, Copy, Debug, PartialEq, Eq, Structural)]
pub struct TimelineProperties {
    pub start_time: i64,
    pub end_time: i64,
    pub position: i64,
    pub min_seek_time: i64,
    pub max_seek_time: i64,
}

/// The five points for a duration and a position: the timeline starts at zero
/// and ends at the duration, and every point of it can be sought.
pub fn timeline_properties(duration: i64, position: i64) -> (properties: TimelineProperties)
    ensures
        properties == (TimelineProperties {
            start_time: 0,
            end_time: duration,
            position: position,
            min_seek_time: 0,
            max_seek_time: duration,
        }),
{
    TimelineProperties {
        start_time: 0,
        end_time: duration,
        position,
        min_seek_time: 0,
        max_seek_time: duration,
    }
}

} // verus!
