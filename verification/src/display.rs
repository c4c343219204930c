//! Rendering a canonical clock as text: `HH:MM` for the 24-hour tag,
//! `HH:MM a.m.` / `HH:MM p.m.` for the 12-hour tag.

use crate::clock::{Clock, TwelveHourClock, TwentyFourHourClock};
use vstd::prelude::*;

verus! {

/// The decimal digit character for `d` in `0..=9`.
pub open spec fn digit_char(d: int) -> char {
    if d == 0 {
        '0'
    } else if d == 1 {
        '1'
    } else if d == 2 {
        '2'
    } else if d == 3 {
        '3'
    } else if d == 4 {
        '4'
    } else if d == 5 {
        '5'
    } else if d == 6 {
        '6'
    } else if d == 7 {
        '7'
    } else if d == 8 {
        '8'
    } else {
        '9'
    }
}

/// `n` in `0..=99`, zero-padded to exactly two digits.
pub open spec fn two_digits(n: int) -> Seq<char> {
    seq![digit_char(n / 10), digit_char(n % 10)]
}

/// The 24-hour rendering: `HH:MM`, both fields zero-padded to width 2.
pub open spec fn spec_twenty_four_hour_display(c: Clock<TwentyFourHourClock>) -> Seq<char> {
    two_digits(c.hours as int) + seq![':'] + two_digits(c.minutes as int)
}

/// The hour figure shown under the 12-hour rendering. Canonical hours
/// up to 12 are shown as they are — midnight deliberately stays `00`,
/// not `12` — and 13 through 23 drop one half-day.
pub open spec fn twelve_hour_display_hours(hours: int) -> int {
    if hours <= 12 {
        hours
    } else {
        hours - 12
    }
}

/// The 12-hour suffix: `a.m.` strictly before noon, `p.m.` from noon on.
pub open spec fn twelve_hour_suffix(hours: int) -> Seq<char> {
    if hours <= 11 {
        seq!['a', '.', 'm', '.']
    } else {
        seq!['p', '.', 'm', '.']
    }
}

/// The 12-hour rendering: `HH:MM a.m.` or `HH:MM p.m.`, both numeric
/// fields zero-padded to width 2.
pub open spec fn spec_twelve_hour_display(c: Clock<TwelveHourClock>) -> Seq<char> {
    two_digits(twelve_hour_display_hours(c.hours as int)) + seq![':'] + two_digits(
        c.minutes as int,
    ) + seq![' '] + twelve_hour_suffix(c.hours as int)
}

/// The one-character string for a single decimal digit.
fn digit_str(d: u32) -> (s: &'static str)
    requires
        d <= 9,
    ensures
        s@ =~= seq![digit_char(d as int)],
{
    proof {
        reveal_strlit("0");
        reveal_strlit("1");
        reveal_strlit("2");
        reveal_strlit("3");
        reveal_strlit("4");
        reveal_strlit("5");
        reveal_strlit("6");
        reveal_strlit("7");
        reveal_strlit("8");
        reveal_strlit("9");
    }
    if d == 0 {
        "0"
    } else if d == 1 {
        "1"
    } else if d == 2 {
        "2"
    } else if d == 3 {
        "3"
    } else if d == 4 {
        "4"
    } else if d == 5 {
        "5"
    } else if d == 6 {
        "6"
    } else if d == 7 {
        "7"
    } else if d == 8 {
        "8"
    } else {
        "9"
    }
}

/// Appends `n` as exactly two decimal digits, zero-padded.
fn push_two_digits(s: &mut String, n: i32)
    requires
        0 <= n <= 99,
    ensures
        final(s)@ == old(s)@ + two_digits(n as int),
{
    let v = n as u32;
    s.append(digit_str(v / 10));
    s.append(digit_str(v % 10));
    proof {
        assert(final(s)@ =~= old(s)@ + two_digits(n as int));
    }
}

impl Clock<TwentyFourHourClock> {
    /// Renders this canonical value as `HH:MM`.
    pub fn display_string(&self) -> (s: String)
        requires
            self.is_canonical(),
        ensures
            s@ == spec_twenty_four_hour_display(*self),
    {
        proof {
            reveal_strlit(":");
        }
        let mut s = String::new();
        push_two_digits(&mut s, self.hours);
        s.append(":");
        push_two_digits(&mut s, self.minutes);
        proof {
            assert(s@ =~= spec_twenty_four_hour_display(*self));
        }
        s
    }
}

impl Clock<TwelveHourClock> {
    /// Renders this canonical value as `HH:MM a.m.` or `HH:MM p.m.`.
    pub fn display_string(&self) -> (s: String)
        requires
            self.is_canonical(),
        ensures
            s@ == spec_twelve_hour_display(*self),
    {
        proof {
            reveal_strlit(":");
            reveal_strlit(" ");
            reveal_strlit("a.m.");
            reveal_strlit("p.m.");
        }
        let display_hours: i32 = if self.hours <= 12 {
            self.hours
        } else {
            self.hours - 12
        };
        let suffix: &'static str = if self.hours <= 11 {
            "a.m."
        } else {
            "p.m."
        };
        let mut s = String::new();
        push_two_digits(&mut s, display_hours);
        s.append(":");
        push_two_digits(&mut s, self.minutes);
        s.append(" ");
        s.append(suffix);
        proof {
            assert(s@ =~= spec_twelve_hour_display(*self));
        }
        s
    }
}

} // verus!
