//! Gamma levels in hundredths of a percent point.

use vstd::prelude::*;
use crate::text::{
    hundredths_text, hundredths_to_text, i64_hundredths_text_value, parse_hundredths,
};

verus! {

/// A gamma level, held as a count of hundredths of a percent point so that
/// two digits behind the point are exact: 80 % is 8000, 89.9 % is 8990.
#[derive(Clone, Copy, Debug, PartialEq, Eq, Structural)]
pub struct Gamma {
    pub hundredths: i64,
}

impl Gamma {
    /// The gamma level of a whole number of percent points.
    pub fn from_percent(percent: i32) -> (r: Gamma)
        ensures
            r.hundredths == percent * 100,
    {
        Gamma { hundredths: percent as i64 * 100 }
    }

    /// The gamma level of a count of hundredths.
    pub fn from_hundredths(hundredths: i64) -> (r: Gamma)
        ensures
            r.hundredths == hundredths,
    {
        Gamma { hundredths }
    }

    /// Reads a gamma level written as a percentage with at most two digits
    /// behind the point, such as `80`, `89.9` or `89.90`. Returns `None` for
    /// any other text and for a level too large to hold.
    pub fn parse(s: &str) -> (r: Option<Gamma>)
        ensures
            r == match i64_hundredths_text_value(s@) {
                Some(hundredths) => Some(Gamma { hundredths }),
                None => None,
            },
    {
        match parse_hundredths(s) {
            Some(hundredths) => Some(Gamma { hundredths }),
            None => None,
        }
    }

    /// Writes the gamma level as a percentage with two digits behind the
    /// point.
    pub fn to_text(&self) -> (r: String)
        ensures
            r@ == hundredths_text(self.hundredths as int),
    {
        hundredths_to_text(self.hundredths)
    }
}

} // verus!
