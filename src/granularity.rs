//! The bucket width that the upstream source aggregates intervals by.

use crate::text::str_eq;
use vstd::prelude::*;

verus! {

/// Width of one time bucket.
#[derive(Debug, Clone, Copy, PartialEq, Eq, Structural)]
pub enum Interval {
    FiveMin,
    Hour,
    Day,
    Week,
    Month,
    Quarter,
    Year,
}

/// What `str::to_lowercase` makes of `s`.
pub uninterp spec fn lower_of(s: Seq<char>) -> Seq<char>;

/// Relies on `str::to_lowercase`: the result depends on the characters of `s` alone.
#[verifier::external_body]
fn lowercase(s: &str) -> (r: String)
    ensures
        r@ == lower_of(s@),
{
    s.to_lowercase()
}

/// The interval that a lower-case name selects, if any.
pub open spec fn interval_named(t: Seq<char>) -> Option<Interval> {
    if t == "five_min"@ {
        Some(Interval::FiveMin)
    } else if t == "hour"@ {
        Some(Interval::Hour)
    } else if t == "day"@ {
        Some(Interval::Day)
    } else if t == "week"@ {
        Some(Interval::Week)
    } else if t == "month"@ {
        Some(Interval::Month)
    } else if t == "quarter"@ {
        Some(Interval::Quarter)
    } else if t == "year"@ {
        Some(Interval::Year)
    } else {
        None
    }
}

impl Interval {
    /// The token the upstream source and the store use for this width.
    pub open spec fn token(self) -> Seq<char> {
        match self {
            Interval::FiveMin => "5min"@,
            Interval::Hour => "hour"@,
            Interval::Day => "day"@,
            Interval::Week => "week"@,
            Interval::Month => "month"@,
            Interval::Quarter => "quarter"@,
            Interval::Year => "year"@,
        }
    }

    /// The token of this width, as it is sent upstream.
    pub fn as_str(&self) -> (r: &'static str)
        ensures
            r@ == self.token(),
    {
        match self {
            Interval::FiveMin => "5min",
            Interval::Hour => "hour",
            Interval::Day => "day",
            Interval::Week => "week",
            Interval::Month => "month",
            Interval::Quarter => "quarter",
            Interval::Year => "year",
        }
    }

    /// The width that an already lower-cased name selects.
    pub fn from_lowercase(t: &str) -> (r: Option<Interval>)
        ensures
            r == interval_named(t@),
    {
        if str_eq(t, "five_min") {
            Some(Interval::FiveMin)
        } else if str_eq(t, "hour") {
            Some(Interval::Hour)
        } else if str_eq(t, "day") {
            Some(Interval::Day)
        } else if str_eq(t, "week") {
            Some(Interval::Week)
        } else if str_eq(t, "month") {
            Some(Interval::Month)
        } else if str_eq(t, "quarter") {
            Some(Interval::Quarter)
        } else if str_eq(t, "year") {
            Some(Interval::Year)
        } else {
            None
        }
    }

    /// Reads a width name in any letter case; an unknown name is an error.
    pub fn try_from(s: String) -> (r: Result<Interval, String>)
        ensures
            r matches Ok(i) ==> interval_named(lower_of(s@)) == Some(i),
            r matches Err(e) ==> interval_named(lower_of(s@)) is None && e@ == "Invalid interval"@,
    {
        let t = lowercase(s.as_str());
        match Interval::from_lowercase(t.as_str()) {
            Some(i) => Ok(i),
            None => Err(String::from_str("Invalid interval")),
        }
    }
}

} // verus!
