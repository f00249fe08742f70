//! A geographic location used by the calculation engine.

use vstd::prelude::*;

verus! {

/// A geographic location, in fixed-point units: latitude and longitude in
/// millionths of a degree, elevation in millimetres. Elevation is optional and
/// defaults to sea level.
#[derive(Debug, Clone, Copy, PartialEq, Eq, Structural)]
pub struct Coordinates {
    /// Degrees north, in millionths of a degree.
    pub latitude: i64,
    /// Degrees east, in millionths of a degree.
    pub longitude: i64,
    /// Metres above sea level, in millimetres.
    pub elevation: i64,
}

impl Coordinates {
    /// A location at sea level.
    pub fn new(latitude: i64, longitude: i64) -> (c: Self)
        ensures
            c == (Coordinates { latitude, longitude, elevation: 0 }),
    {
        Coordinates { latitude, longitude, elevation: 0 }
    }

    /// A location at the given elevation.
    pub fn with_elevation(latitude: i64, longitude: i64, elevation: i64) -> (c: Self)
        ensures
            c == (Coordinates { latitude, longitude, elevation }),
    {
        Coordinates { latitude, longitude, elevation }
    }
}

} // verus!
