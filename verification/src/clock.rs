//! Wall-clock snapshots and the hand angles they yield.
//!
//! A `ClockTime` is a read-only snapshot of the wall clock, sampled once per
//! frame by the host and handed in as plain values. Angles are measured
//! clockwise from twelve o'clock in thousandths of a degree, so every hand
//! position is exact integer arithmetic; a full turn is `MILLIDEG_PER_TURN`.

use vstd::prelude::*;

verus! {

/// Thousandths of a degree in a full turn.
pub const MILLIDEG_PER_TURN: u32 = 360_000;

/// A snapshot of the wall clock, taken once per frame.
#[derive(Clone, Copy, Debug, PartialEq, Eq, Structural)]
pub struct ClockTime {
    pub hour: u8,
    pub minute: u8,
    pub second: u8,
    pub millisecond: u16,
}

impl ClockTime {
    /// The fields lie in their calendar ranges.
    pub open spec fn wf(self) -> bool {
        &&& self.hour < 24
        &&& self.minute < 60
        &&& self.second < 60
        &&& self.millisecond < 1000
    }

    /// Builds a snapshot from its fields.
    pub fn new(hour: u8, minute: u8, second: u8, millisecond: u16) -> (t: ClockTime)
        requires
            hour < 24,
            minute < 60,
            second < 60,
            millisecond < 1000,
        ensures
            t == (ClockTime { hour, minute, second, millisecond }),
            t.wf(),
    {
        ClockTime { hour, minute, second, millisecond }
    }

    /// Builds a snapshot from a count of milliseconds, taken modulo one day.
    ///
    /// This is the bridge from any monotonic or epoch-based time source the
    /// host samples: the host passes the raw count and the decomposition into
    /// hour, minute, second and millisecond is computed here.
    pub fn from_millis_of_day(millis: u64) -> (t: ClockTime)
        ensures
            t.wf(),
            t.hour == (millis % 86_400_000) / 3_600_000,
            t.minute == (millis % 86_400_000) / 60_000 % 60,
            t.second == (millis % 86_400_000) / 1000 % 60,
            t.millisecond == (millis % 86_400_000) % 1000,
    {
        let in_day: u64 = millis % 86_400_000;
        let hour: u64 = in_day / 3_600_000;
        let minute: u64 = in_day / 60_000 % 60;
        let second: u64 = in_day / 1000 % 60;
        let millisecond: u64 = in_day % 1000;
        ClockTime {
            hour: hour as u8,
            minute: minute as u8,
            second: second as u8,
            millisecond: millisecond as u16,
        }
    }
}

/// The hour hand's angle: thirty degrees per hour, advanced half a degree
/// for every elapsed minute, wrapped to one turn.
pub open spec fn spec_hour_angle(hour: int, minute: int) -> int {
    (hour * 30_000 + minute * 500) % (MILLIDEG_PER_TURN as int)
}

/// The minute hand's angle: six degrees per minute, wrapped to one turn.
pub open spec fn spec_minute_angle(minute: int) -> int {
    (minute * 6000) % (MILLIDEG_PER_TURN as int)
}

/// The second hand's angle: six degrees per second, advanced six thousandths
/// of a degree for every elapsed millisecond, wrapped to one turn.
pub open spec fn spec_second_angle(second: int, millisecond: int) -> int {
    (second * 6000 + millisecond * 6) % (MILLIDEG_PER_TURN as int)
}

/// Computes the hour hand's angle in millidegrees.
pub fn hour_angle_millideg(hour: u8, minute: u8) -> (angle: u32)
    requires
        hour < 24,
        minute < 60,
    ensures
        angle == spec_hour_angle(hour as int, minute as int),
        angle < MILLIDEG_PER_TURN,
{
    ((hour as u32) * 30_000 + (minute as u32) * 500) % MILLIDEG_PER_TURN
}

/// Computes the minute hand's angle in millidegrees.
pub fn minute_angle_millideg(minute: u8) -> (angle: u32)
    requires
        minute < 60,
    ensures
        angle == spec_minute_angle(minute as int),
        angle < MILLIDEG_PER_TURN,
{
    ((minute as u32) * 6000) % MILLIDEG_PER_TURN
}

/// Computes the second hand's angle in millidegrees.
pub fn second_angle_millideg(second: u8, millisecond: u16) -> (angle: u32)
    requires
        second < 60,
        millisecond < 1000,
    ensures
        angle == spec_second_angle(second as int, millisecond as int),
        angle < MILLIDEG_PER_TURN,
{
    ((second as u32) * 6000 + (millisecond as u32) * 6) % MILLIDEG_PER_TURN
}

} // verus!
