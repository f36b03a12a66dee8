use vstd::prelude::*;

verus! {

/// A point on the earth in WGS-84, both coordinates in nanodegrees
/// (degrees times one billion).
#[derive(Clone, Copy, Debug, PartialEq, Eq, Structural)]
pub struct Position {
    pub latitude: i64,
    pub longitude: i64,
}

impl Position {
    pub fn new(latitude: i64, longitude: i64) -> (r: Position)
        ensures
            r.latitude == latitude,
            r.longitude == longitude,
    {
        Position { latitude, longitude }
    }
}

/// A calendar date.
#[derive(Clone, Copy, Debug, PartialEq, Eq, Structural)]
pub struct Date {
    pub year: u16,
    pub month: u8,
    pub day: u8,
}

/// A time of day with nanosecond resolution.
#[derive(Clone, Copy, Debug, PartialEq, Eq, Structural)]
pub struct Time {
    pub hour: u8,
    pub minute: u8,
    pub second: u8,
    pub nano: u32,
}

impl Date {
    pub open spec fn valid(self) -> bool {
        1 <= self.month <= 12 && 1 <= self.day <= 31 && self.year <= 9999
    }
}

impl Time {
    pub open spec fn valid(self) -> bool {
        self.hour < 24 && self.minute < 60 && self.second < 60 && self.nano < 1_000_000_000
    }
}

/// One GNSS fix: a position with speed (millimetres per second) and the
/// UTC date and time at which it was taken.
#[derive(Clone, Copy, Debug, PartialEq, Eq, Structural)]
pub struct GnssPosition {
    pub latitude: i64,
    pub longitude: i64,
    pub velocity: i64,
    pub time: Time,
    pub date: Date,
}

impl GnssPosition {
    pub fn new(latitude: i64, longitude: i64, velocity: i64, time: &Time, date: &Date) -> (r:
        GnssPosition)
        ensures
            r.latitude == latitude,
            r.longitude == longitude,
            r.velocity == velocity,
            r.time == *time,
            r.date == *date,
    {
        GnssPosition { latitude, longitude, velocity, time: *time, date: *date }
    }

    pub fn latitude(&self) -> (r: i64)
        ensures
            r == self.latitude,
    {
        self.latitude
    }

    pub fn longitude(&self) -> (r: i64)
        ensures
            r == self.longitude,
    {
        self.longitude
    }

    pub fn velocity(&self) -> (r: i64)
        ensures
            r == self.velocity,
    {
        self.velocity
    }

    pub open spec fn position_spec(&self) -> Position {
        Position { latitude: self.latitude, longitude: self.longitude }
    }

    /// The plain position of this fix.
    pub fn to_position(&self) -> (r: Position)
        ensures
            r == self.position_spec(),
    {
        Position { latitude: self.latitude, longitude: self.longitude }
    }
}

} // verus!
