//! The closed enumeration of supported bar granularities, with the
//! canonical short string form used both for external API parameters and
//! for storage encoding. The string mapping is bidirectional and
//! lossless, which `lemma_timeframe_str_roundtrip` states and proves.
use vstd::prelude::*;
use vstd::string::StrSliceExecFns;

use crate::errors::VariantNotFoundError;

verus! {

#[derive(Debug, Clone, Copy, PartialEq, Eq, Hash, Structural)]
pub enum Timeframe {
    OneMinute,
    ThreeMinutes,
    FiveMinutes,
    FifteenMinutes,
    ThirtyMinutes,
    OneHour,
    TwoHours,
    ThreeHours,
    FourHours,
    SixHours,
    EightHours,
    TwelveHours,
    OneDay,
}

/// The canonical short string form of a timeframe.
pub open spec fn timeframe_chars(t: Timeframe) -> Seq<char> {
    match t {
        Timeframe::OneMinute => "1m"@,
        Timeframe::ThreeMinutes => "3m"@,
        Timeframe::FiveMinutes => "5m"@,
        Timeframe::FifteenMinutes => "15m"@,
        Timeframe::ThirtyMinutes => "30m"@,
        Timeframe::OneHour => "1h"@,
        Timeframe::TwoHours => "2h"@,
        Timeframe::ThreeHours => "3h"@,
        Timeframe::FourHours => "4h"@,
        Timeframe::SixHours => "6h"@,
        Timeframe::EightHours => "8h"@,
        Timeframe::TwelveHours => "12h"@,
        Timeframe::OneDay => "1d"@,
    }
}

/// The timeframe whose canonical short form is `s`, if any, described
/// structurally over the characters of `s`.
pub open spec fn timeframe_of_chars(s: Seq<char>) -> Option<Timeframe> {
    if s.len() == 2 {
        if s[0] == '1' && s[1] == 'm' {
            Some(Timeframe::OneMinute)
        } else if s[0] == '3' && s[1] == 'm' {
            Some(Timeframe::ThreeMinutes)
        } else if s[0] == '5' && s[1] == 'm' {
            Some(Timeframe::FiveMinutes)
        } else if s[0] == '1' && s[1] == 'h' {
            Some(Timeframe::OneHour)
        } else if s[0] == '2' && s[1] == 'h' {
            Some(Timeframe::TwoHours)
        } else if s[0] == '3' && s[1] == 'h' {
            Some(Timeframe::ThreeHours)
        } else if s[0] == '4' && s[1] == 'h' {
            Some(Timeframe::FourHours)
        } else if s[0] == '6' && s[1] == 'h' {
            Some(Timeframe::SixHours)
        } else if s[0] == '8' && s[1] == 'h' {
            Some(Timeframe::EightHours)
        } else if s[0] == '1' && s[1] == 'd' {
            Some(Timeframe::OneDay)
        } else {
            None
        }
    } else if s.len() == 3 {
        if s[0] == '1' && s[1] == '5' && s[2] == 'm' {
            Some(Timeframe::FifteenMinutes)
        } else if s[0] == '3' && s[1] == '0' && s[2] == 'm' {
            Some(Timeframe::ThirtyMinutes)
        } else if s[0] == '1' && s[1] == '2' && s[2] == 'h' {
            Some(Timeframe::TwelveHours)
        } else {
            None
        }
    } else {
        None
    }
}

impl Timeframe {
    /// The canonical short string form, used both as the external API's
    /// interval parameter and as the storage row encoding.
    pub fn as_str(&self) -> (r: &'static str)
        ensures
            r@ == timeframe_chars(*self),
    {
        match self {
            Timeframe::OneMinute => "1m",
            Timeframe::ThreeMinutes => "3m",
            Timeframe::FiveMinutes => "5m",
            Timeframe::FifteenMinutes => "15m",
            Timeframe::ThirtyMinutes => "30m",
            Timeframe::OneHour => "1h",
            Timeframe::TwoHours => "2h",
            Timeframe::ThreeHours => "3h",
            Timeframe::FourHours => "4h",
            Timeframe::SixHours => "6h",
            Timeframe::EightHours => "8h",
            Timeframe::TwelveHours => "12h",
            Timeframe::OneDay => "1d",
        }
    }

    /// Parses the canonical short string form back into a timeframe.
    /// Returns `Some` exactly on the strings that `as_str` produces.
    pub fn parse_short(s: &str) -> (r: Option<Timeframe>)
        ensures
            r == timeframe_of_chars(s@),
    {
        let n = s.unicode_len();
        if n == 2 {
            let c0 = s.get_char(0);
            let c1 = s.get_char(1);
            if c0 == '1' && c1 == 'm' {
                Some(Timeframe::OneMinute)
            } else if c0 == '3' && c1 == 'm' {
                Some(Timeframe::ThreeMinutes)
            } else if c0 == '5' && c1 == 'm' {
                Some(Timeframe::FiveMinutes)
            } else if c0 == '1' && c1 == 'h' {
                Some(Timeframe::OneHour)
            } else if c0 == '2' && c1 == 'h' {
                Some(Timeframe::TwoHours)
            } else if c0 == '3' && c1 == 'h' {
                Some(Timeframe::ThreeHours)
            } else if c0 == '4' && c1 == 'h' {
                Some(Timeframe::FourHours)
            } else if c0 == '6' && c1 == 'h' {
                Some(Timeframe::SixHours)
            } else if c0 == '8' && c1 == 'h' {
                Some(Timeframe::EightHours)
            } else if c0 == '1' && c1 == 'd' {
                Some(Timeframe::OneDay)
            } else {
                None
            }
        } else if n == 3 {
            let c0 = s.get_char(0);
            let c1 = s.get_char(1);
            let c2 = s.get_char(2);
            if c0 == '1' && c1 == '5' && c2 == 'm' {
                Some(Timeframe::FifteenMinutes)
            } else if c0 == '3' && c1 == '0' && c2 == 'm' {
                Some(Timeframe::ThirtyMinutes)
            } else if c0 == '1' && c1 == '2' && c2 == 'h' {
                Some(Timeframe::TwelveHours)
            } else {
                None
            }
        } else {
            None
        }
    }
}

impl core::str::FromStr for Timeframe {
    type Err = VariantNotFoundError;

    fn from_str(s: &str) -> Result<Timeframe, VariantNotFoundError> {
        match Timeframe::parse_short(s) {
            Some(t) => Ok(t),
            None => Err(VariantNotFoundError),
        }
    }
}

/// The string form of a timeframe parses back to that same timeframe:
/// the mapping between timeframes and their short forms is lossless in
/// both directions.
pub proof fn lemma_timeframe_str_roundtrip(t: Timeframe)
    ensures
        timeframe_of_chars(timeframe_chars(t)) == Some(t),
{
    reveal_strlit("1m");
    reveal_strlit("3m");
    reveal_strlit("5m");
    reveal_strlit("15m");
    reveal_strlit("30m");
    reveal_strlit("1h");
    reveal_strlit("2h");
    reveal_strlit("3h");
    reveal_strlit("4h");
    reveal_strlit("6h");
    reveal_strlit("8h");
    reveal_strlit("12h");
    reveal_strlit("1d");
}

} // verus!
