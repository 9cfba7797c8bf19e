use vstd::prelude::*;
use vstd::string::StringExecFns;

use crate::decimal::{append_decimal, decimal};

verus! {

/// Number of seconds in an hour.
pub const SECONDS_PER_HOUR: i64 = 3600;

/// Longest duration a `Time` can hold, in seconds (255 hours, 59 minutes, 59 seconds).
pub const MAX_TIME_SECONDS: i64 = 921599;

/// A duration split into hours, minutes and seconds; the hours fit in a byte.
#[derive(Debug, Clone, Copy, PartialEq, Eq)]
pub struct Time {
    hours: u8,
    minutes: u8,
    seconds: u8,
}

/// `m` rounded down to a multiple of ten.
pub open spec fn round_to_tens(m: nat) -> nat {
    ((m / 10) * 10) as nat
}

/// The brief text for a duration of `h` hours and `m` minutes; past the first
/// hour the minutes are rounded down to tens.
pub open spec fn brief_text(h: nat, m: nat) -> Seq<char> {
    if h == 1 && m == 1 {
        "1 hour and 1 minute"@
    } else if h == 1 {
        "1 hour and "@ + decimal(round_to_tens(m)) + " minutes"@
    } else if h == 0 && m == 1 {
        "1 minute"@
    } else if h == 0 {
        decimal(m) + " minutes"@
    } else if m == 1 {
        decimal(h) + " hours and 1 minute"@
    } else {
        decimal(h) + " hours and "@ + decimal(round_to_tens(m)) + " minutes"@
    }
}

impl Time {
    #[verifier::type_invariant]
    spec fn well_formed(self) -> bool {
        self.minutes < 60 && self.seconds < 60
    }

    pub closed spec fn spec_hours(self) -> nat {
        self.hours as nat
    }

    pub closed spec fn spec_minutes(self) -> nat {
        self.minutes as nat
    }

    pub closed spec fn spec_seconds(self) -> nat {
        self.seconds as nat
    }

    /// Splits a number of seconds; `None` when it is negative or the hours
    /// do not fit in a byte.
    pub fn from_seconds(seconds: i64) -> (r: Option<Self>)
        ensures
            r is Some <==> 0 <= seconds <= MAX_TIME_SECONDS,
            r is Some ==> {
                &&& r->0.spec_hours() == seconds / 3600
                &&& r->0.spec_minutes() == (seconds % 3600) / 60
                &&& r->0.spec_seconds() == seconds % 60
            },
    {
        if seconds < 0 {
            return None;
        }
        let hours = seconds / SECONDS_PER_HOUR;
        if hours > 255 {
            return None;
        }
        let minutes = (seconds % SECONDS_PER_HOUR) / 60;
        let rest = seconds % 60;
        Some(Self { hours: hours as u8, minutes: minutes as u8, seconds: rest as u8 })
    }

    /// A short reading of the duration, such as `2 hours and 30 minutes`.
    pub fn to_human_readable_briefly(self) -> (r: String)
        ensures
            r@ == brief_text(self.spec_hours(), self.spec_minutes()),
    {
        proof {
            use_type_invariant(&self);
            reveal_strlit("1 hour and 1 minute");
            reveal_strlit("1 hour and ");
            reveal_strlit(" minutes");
            reveal_strlit("1 minute");
            reveal_strlit(" hours and 1 minute");
            reveal_strlit(" hours and ");
        }
        let h = self.hours;
        let m = self.minutes;
        let mut s = String::new();
        if h == 1 && m == 1 {
            s.append("1 hour and 1 minute");
        } else if h == 1 {
            s.append("1 hour and ");
            append_decimal(&mut s, ((m / 10) * 10) as u64);
            s.append(" minutes");
        } else if h == 0 && m == 1 {
            s.append("1 minute");
        } else if h == 0 {
            append_decimal(&mut s, m as u64);
            s.append(" minutes");
        } else if m == 1 {
            append_decimal(&mut s, h as u64);
            s.append(" hours and 1 minute");
        } else {
            append_decimal(&mut s, h as u64);
            s.append(" hours and ");
            append_decimal(&mut s, ((m / 10) * 10) as u64);
            s.append(" minutes");
        }
        assert(s@ =~= brief_text(h as nat, m as nat));
        s
    }
}

} // verus!
