//! The sunrise and sunset of one day, and how they are had from the
//! sun-times service.
//!
//! The service is asked by URL for a place on earth and answers with the
//! day's sunrise and sunset as Unix timestamps in decimal text. What is kept
//! of each is its time of day on the UTC clock.

use vstd::prelude::*;
use crate::config::Config;
use crate::text::{i64_text_value, parse_i64};
use crate::time::{TimeOfDay, MAX_TIMESTAMP, MIN_TIMESTAMP};

verus! {

/// The times of day at which the sun rises and sets, both on the UTC clock.
///
/// On a day whose sunrise comes before its sunset the daylight hours are the
/// times from `sunrise` up to, but not including, `sunset`. Nothing here
/// demands that order.
#[derive(Clone, Copy, Debug, PartialEq, Eq, Structural)]
pub struct SunTimes {
    pub sunrise: TimeOfDay,
    pub sunset: TimeOfDay,
}

impl View for SunTimes {
    type V = (int, int);

    /// Sunrise and sunset in seconds since midnight.
    open spec fn view(&self) -> (int, int) {
        (self.sunrise@, self.sunset@)
    }
}

/// Why an answer of the sun-times service cannot be used.
#[derive(Clone, Copy, Debug, PartialEq, Eq, Structural)]
pub enum FetchError {
    /// The sunrise is no integer that fits.
    SunriseNotANumber,
    /// The sunset is no integer that fits.
    SunsetNotANumber,
    /// The sunrise is a timestamp outside the years that have a time of day.
    InvalidSunriseTimestamp,
    /// The sunset is a timestamp outside the years that have a time of day.
    InvalidSunsetTimestamp,
}

/// The URL that asks the service for the sun times at a latitude and a
/// longitude, with the times as Unix timestamps.
pub open spec fn sunrisesunset_url_text(latitude: Seq<char>, longitude: Seq<char>) -> Seq<char> {
    "https://api.sunrisesunset.io/json?lat="@ + latitude + "&lng="@ + longitude
        + "&time_format=unix"@
}

/// `timestamp` has a time of day on the UTC clock.
pub open spec fn is_timestamp(timestamp: int) -> bool {
    MIN_TIMESTAMP <= timestamp <= MAX_TIMESTAMP
}

/// The seconds since midnight, on the UTC clock, at which the sun rises and
/// sets according to an answer of the service, or the first thing that is
/// wrong with the answer: both texts are read as integers before either is
/// taken as a timestamp.
pub open spec fn sun_seconds_of(sunrise: Seq<char>, sunset: Seq<char>) -> Result<
    (int, int),
    FetchError,
> {
    match (i64_text_value(sunrise), i64_text_value(sunset)) {
        (None, _) => Err(FetchError::SunriseNotANumber),
        (Some(_), None) => Err(FetchError::SunsetNotANumber),
        (Some(rise), Some(set)) => if !is_timestamp(rise as int) {
            Err(FetchError::InvalidSunriseTimestamp)
        } else if !is_timestamp(set as int) {
            Err(FetchError::InvalidSunsetTimestamp)
        } else {
            Ok((rise as int % 86400, set as int % 86400))
        },
    }
}

/// The URL that asks the service for the sun times at the configured place.
pub fn build_sunrisesunset_url(config: &Config) -> (url: String)
    ensures
        url@ == sunrisesunset_url_text(config.location.latitude@, config.location.longitude@),
{
    let mut url = String::from_str("https://api.sunrisesunset.io/json?lat=");
    url.append(config.location.latitude.as_str());
    url.append("&lng=");
    url.append(config.location.longitude.as_str());
    url.append("&time_format=unix");
    url
}

/// The sun times that an answer of the service gives: `sunrise` and `sunset`
/// are its two timestamps as it wrote them.
pub fn sun_times_from_timestamps(sunrise: &str, sunset: &str) -> (r: Result<SunTimes, FetchError>)
    ensures
        match r {
            Ok(sun_times) => sun_seconds_of(sunrise@, sunset@) == Ok::<(int, int), FetchError>(
                sun_times@,
            ),
            Err(e) => sun_seconds_of(sunrise@, sunset@) == Err::<(int, int), FetchError>(e),
        },
{
    let sunrise_timestamp: i64 = match parse_i64(sunrise) {
        Some(t) => t,
        None => {
            return Err(FetchError::SunriseNotANumber);
        },
    };
    let sunset_timestamp: i64 = match parse_i64(sunset) {
        Some(t) => t,
        None => {
            return Err(FetchError::SunsetNotANumber);
        },
    };
    let sunrise_time: TimeOfDay = match TimeOfDay::from_timestamp(sunrise_timestamp) {
        Some(t) => t,
        None => {
            return Err(FetchError::InvalidSunriseTimestamp);
        },
    };
    let sunset_time: TimeOfDay = match TimeOfDay::from_timestamp(sunset_timestamp) {
        Some(t) => t,
        None => {
            return Err(FetchError::InvalidSunsetTimestamp);
        },
    };
    Ok(SunTimes { sunrise: sunrise_time, sunset: sunset_time })
}

} // verus!
