//! What an IP-location reply yields: coordinates plus the hints used to pick a
//! method and a timezone, or the reason the lookup failed.

use vstd::prelude::*;

use crate::coordinates::Coordinates;

verus! {

/// A detected location: coordinates plus the ISO country code and the IANA
/// timezone id, when the lookup knew them.
pub struct Detected {
    pub coords: Coordinates,
    pub country_code: Option<String>,
    pub tz: Option<String>,
}

/// Interpret a location lookup's reply: its success flag, its error message,
/// its coordinates (millionths of a degree) and its hints.
///
/// - An unsuccessful reply fails with its message, or "Location lookup failed"
///   when it carries none.
/// - A successful reply without both coordinates fails with "Location response
///   was missing coordinates".
/// - Otherwise the location is detected at sea level with the reply's hints.
pub fn detected_from_reply(
    success: bool,
    message: Option<String>,
    latitude: Option<i64>,
    longitude: Option<i64>,
    country_code: Option<String>,
    tz: Option<String>,
) -> (r: Result<Detected, String>)
    ensures
        !success ==> (r matches Err(e) && e@ == match message {
            Some(m) => m@,
            None => "Location lookup failed"@,
        }),
        success && (latitude is None || longitude is None) ==> (r matches Err(e) && e@
            == "Location response was missing coordinates"@),
        success && latitude is Some && longitude is Some ==> (r matches Ok(d) && d.coords == (
        Coordinates { latitude: latitude->0, longitude: longitude->0, elevation: 0 })
            && d.country_code == country_code && d.tz == tz),
{
    if !success {
        return Err(
            match message {
                Some(m) => m,
                None => String::from_str("Location lookup failed"),
            },
        );
    }
    match (latitude, longitude) {
        (Some(lat), Some(lng)) => Ok(
            Detected { coords: Coordinates::new(lat, lng), country_code, tz },
        ),
        _ => Err(String::from_str("Location response was missing coordinates")),
    }
}

} // verus!
