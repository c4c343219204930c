//! The `Clock` value type: construction-time normalization, arithmetic,
//! and the compile-time format tags.

use core::marker::PhantomData;
use vstd::arithmetic::div_mod::{
    lemma_add_mod_noop, lemma_fundamental_div_mod, lemma_fundamental_div_mod_converse,
};
use vstd::prelude::*;

verus! {

/// Format tag selecting the 24-hour rendering (`HH:MM`).
#[derive(Debug, PartialEq, Eq)]
pub struct TwentyFourHourClock;

/// Format tag selecting the 12-hour rendering (`HH:MM a.m.` / `HH:MM p.m.`).
#[derive(Debug, PartialEq, Eq)]
pub struct TwelveHourClock;

/// A wall-clock time. `hours` and `minutes` are canonical (`0..=23` and
/// `0..=59`) after every construction path; the zero-sized `Kind` tag
/// only selects a rendering and never changes in place.
#[derive(Debug, PartialEq, Eq)]
pub struct Clock<Kind = TwentyFourHourClock> {
    pub hours: i32,
    pub minutes: i32,
    pub kind: PhantomData<Kind>,
}

impl<Kind> Clone for Clock<Kind> {
    fn clone(&self) -> (c: Self)
        ensures
            c == *self,
    {
        Clock { hours: self.hours, minutes: self.minutes, kind: PhantomData }
    }
}

impl<Kind> Copy for Clock<Kind> {}

/// The minute count that an (hours, minutes) pair stands for.
pub open spec fn total_minutes(hours: int, minutes: int) -> int {
    60 * hours + minutes
}

/// Canonical hour of a minute count: whole hours, wrapped to one day.
/// `/` and `%` are Euclidean here, so the result lies in `0..=23` for
/// every argument, positive or negative.
pub open spec fn canonical_hours(total: int) -> int {
    (total / 60) % 24
}

/// Canonical minute of a minute count: the Euclidean remainder modulo
/// one hour, in `0..=59` for every argument.
pub open spec fn canonical_minutes(total: int) -> int {
    total % 60
}

/// The canonical 24-hour clock value of a minute count.
pub open spec fn spec_clock_of(total: int) -> Clock<TwentyFourHourClock> {
    Clock {
        hours: canonical_hours(total) as i32,
        minutes: canonical_minutes(total) as i32,
        kind: PhantomData,
    }
}

impl<Kind> Clock<Kind> {
    /// Both fields lie in their canonical ranges.
    pub open spec fn is_canonical(self) -> bool {
        &&& 0 <= self.hours <= 23
        &&& 0 <= self.minutes <= 59
    }

    /// The minute count this value stands for.
    pub open spec fn total(self) -> int {
        total_minutes(self.hours as int, self.minutes as int)
    }

    /// `self` is the canonical form of the minute count `t`.
    pub open spec fn is_canonical_form_of(self, t: int) -> bool {
        &&& self.is_canonical()
        &&& self.hours == canonical_hours(t)
        &&& self.minutes == canonical_minutes(t)
    }

    /// Wraps a raw pair into canonical form. The intermediate steps use
    /// truncating division and remainder (the remainder follows the sign
    /// of the dividend), then the two corrections put the fields back in
    /// range: first the minute borrow, then the hour wraparound — in that
    /// order, since borrowing can push a non-negative hour below zero.
    /// The bounds keep every intermediate sum inside `i64`; all callers
    /// pass values derived from at most two `i32`s, far inside them.
    fn from_raw_parts(h: i64, m: i64) -> (c: Self)
        requires
            -0x1_0000_0000_0000 <= h <= 0x1_0000_0000_0000,
            -0x1_0000_0000_0000 <= m <= 0x1_0000_0000_0000,
        ensures
            c.is_canonical_form_of(total_minutes(h as int, m as int)),
    {
        let carry = m.checked_div(60).unwrap();
        let hours_wrapped = (h + carry).checked_rem(24).unwrap();
        let minutes_rem = m.checked_rem(60).unwrap();

        let mut hours: i64 = hours_wrapped;
        let mut minutes: i64 = minutes_rem;
        if minutes < 0 {
            minutes = minutes + 60;
            hours = hours - 1;
        }
        if hours < 0 {
            hours = hours + 24;
        }

        proof {
            let t = total_minutes(h as int, m as int);
            // The truncating carry and remainder still split m exactly:
            // m == 60 * carry + minutes_rem, with -60 < minutes_rem < 60.
            if m < 0 {
                lemma_fundamental_div_mod(-(m as int), 60);
            } else {
                lemma_fundamental_div_mod(m as int, 60);
            }
            assert(m == 60 * carry + minutes_rem);
            // Likewise h + carry == 24 * k + hours_wrapped for some whole
            // number of days k, with -24 < hours_wrapped < 24.
            let x = h as int + carry as int;
            let k: int = if x < 0 {
                -((-x) / 24)
            } else {
                x / 24
            };
            if x < 0 {
                lemma_fundamental_div_mod(-x, 24);
            } else {
                lemma_fundamental_div_mod(x, 24);
            }
            assert(x == 24 * k + hours_wrapped);
            // After the two corrections the result differs from t by a
            // whole number of days q, with both fields in range.
            let hours_borrowed: int = hours_wrapped as int - (if minutes_rem < 0 {
                1int
            } else {
                0int
            });
            let q: int = if hours_borrowed < 0 {
                k - 1
            } else {
                k
            };
            assert(t == 1440 * q + 60 * (hours as int) + (minutes as int));
            lemma_fundamental_div_mod_converse(t, 60, 24 * q + hours as int, minutes as int);
            lemma_fundamental_div_mod_converse(24 * q + hours as int, 24, q, hours as int);
        }

        Clock { hours: hours as i32, minutes: minutes as i32, kind: PhantomData }
    }
}

impl Clock<TwentyFourHourClock> {
    /// Builds the canonical 24-hour clock for the given raw pair. Any
    /// hours and minutes are accepted, out-of-range and negative ones
    /// included; the result is always canonical.
    pub fn new(hours: i32, minutes: i32) -> (c: Self)
        ensures
            c.is_canonical_form_of(total_minutes(hours as int, minutes as int)),
    {
        Clock { hours, minutes, kind: PhantomData }.normalize()
    }

    /// Returns the canonical form of this value's minute count. On a
    /// clock built by `new`, `default` or `from` this is the identity.
    pub fn normalize(&self) -> (c: Self)
        ensures
            c.is_canonical_form_of(self.total()),
    {
        Self::from_raw_parts(self.hours as i64, self.minutes as i64)
    }

    /// Adds a minute offset, possibly negative, and renormalizes. The
    /// receiver is unchanged: this is a pure function returning a new
    /// value.
    pub fn add_minutes(&self, min: i32) -> (c: Self)
        ensures
            c.is_canonical_form_of(total_minutes(self.hours as int, self.minutes as int + min)),
    {
        Self::from_raw_parts(self.hours as i64, self.minutes as i64 + min as i64)
    }

    /// Sums hours and minutes component-wise, then renormalizes.
    pub fn add(self, rhs: Self) -> (c: Self)
        ensures
            c.is_canonical_form_of(
                total_minutes(self.hours + rhs.hours, self.minutes + rhs.minutes),
            ),
    {
        Self::from_raw_parts(
            self.hours as i64 + rhs.hours as i64,
            self.minutes as i64 + rhs.minutes as i64,
        )
    }

    /// The 12-hour view of this value: hours and minutes are copied
    /// verbatim. The stored pair stays 24-hour canonical under either
    /// tag; only the rendering differs.
    pub open spec fn spec_as_twelve_hour_clock(self) -> Clock<TwelveHourClock> {
        Clock { hours: self.hours, minutes: self.minutes, kind: PhantomData }
    }

    /// Re-tags this value for the 12-hour rendering; the one legal
    /// bridge from the 24-hour type to the 12-hour type.
    pub fn as_twelve_hour_clock(&self) -> (c: Clock<TwelveHourClock>)
        ensures
            c == self.spec_as_twelve_hour_clock(),
    {
        Clock { hours: self.hours, minutes: self.minutes, kind: PhantomData }
    }
}

impl Clock<TwelveHourClock> {
    /// The 24-hour view of this value: hours and minutes are copied
    /// verbatim.
    pub open spec fn spec_as_twenty_four_hour_clock(self) -> Clock<TwentyFourHourClock> {
        Clock { hours: self.hours, minutes: self.minutes, kind: PhantomData }
    }

    /// Re-tags this value for the 24-hour rendering; the one legal
    /// bridge back from the 12-hour type.
    pub fn as_twenty_four_hour_clock(&self) -> (c: Clock<TwentyFourHourClock>)
        ensures
            c == self.spec_as_twenty_four_hour_clock(),
    {
        Clock { hours: self.hours, minutes: self.minutes, kind: PhantomData }
    }
}

impl Default for Clock<TwentyFourHourClock> {
    /// Midnight. Built directly rather than through `new`: (0, 0) is
    /// already canonical, so the two paths agree.
    fn default() -> (c: Self)
        ensures
            c.hours == 0,
            c.minutes == 0,
    {
        Clock { hours: 0, minutes: 0, kind: PhantomData }
    }
}

impl From<i32> for Clock<TwentyFourHourClock> {
    /// Interprets the integer as a minute count from midnight.
    fn from(val: i32) -> (c: Self) {
        Clock::new(0, val)
    }
}

impl vstd::std_specs::convert::FromSpecImpl<i32> for Clock<TwentyFourHourClock> {
    open spec fn obeys_from_spec() -> bool {
        true
    }

    open spec fn from_spec(val: i32) -> Self {
        spec_clock_of(val as int)
    }
}

/// Law: normalization is idempotent. An already-canonical pair is the
/// canonical form of its own minute count, so `normalize` (and hence
/// `new` on in-range arguments) returns it unchanged.
pub proof fn lemma_canonical_is_fixed_point<Kind>(c: Clock<Kind>)
    requires
        c.is_canonical(),
    ensures
        c.is_canonical_form_of(c.total()),
{
    lemma_fundamental_div_mod_converse(c.total(), 60, c.hours as int, c.minutes as int);
    lemma_fundamental_div_mod_converse(c.hours as int, 24, 0, c.hours as int);
}

/// Law: re-tagging a 24-hour clock as 12-hour and back returns the
/// original value.
pub proof fn lemma_format_round_trip(c: Clock<TwentyFourHourClock>)
    requires
        c.is_canonical(),
    ensures
        c.spec_as_twelve_hour_clock().spec_as_twenty_four_hour_clock() == c,
{
}

/// The canonical fields recover the minute count modulo one day:
/// `60 * canonical_hours(t) + canonical_minutes(t) == t % 1440`.
pub proof fn lemma_canonical_parts_mod_day(t: int)
    ensures
        60 * canonical_hours(t) + canonical_minutes(t) == t % 1440,
{
    lemma_fundamental_div_mod(t, 60);
    lemma_fundamental_div_mod(t / 60, 24);
    lemma_fundamental_div_mod_converse(
        t,
        1440,
        (t / 60) / 24,
        60 * canonical_hours(t) + canonical_minutes(t),
    );
}

/// Canonicalization only sees the minute count modulo one day.
pub proof fn lemma_canonical_depends_on_day(t1: int, t2: int)
    requires
        t1 % 1440 == t2 % 1440,
    ensures
        canonical_hours(t1) == canonical_hours(t2),
        canonical_minutes(t1) == canonical_minutes(t2),
{
    lemma_canonical_parts_mod_day(t1);
    lemma_canonical_parts_mod_day(t2);
}

/// Law: addition is consistent with construction. Building two clocks
/// and summing them component-wise gives the same canonical value as
/// building one clock from the component-wise sums, for all integers.
pub proof fn lemma_add_consistency(a: int, b: int, c: int, d: int)
    ensures
        ({
            let s1 = spec_clock_of(total_minutes(a, b));
            let s2 = spec_clock_of(total_minutes(c, d));
            spec_clock_of(total_minutes(s1.hours + s2.hours, s1.minutes + s2.minutes))
                == spec_clock_of(total_minutes(a + c, b + d))
        }),
{
    let t1 = total_minutes(a, b);
    let t2 = total_minutes(c, d);
    lemma_canonical_parts_mod_day(t1);
    lemma_canonical_parts_mod_day(t2);
    lemma_add_mod_noop(t1, t2, 1440);
    lemma_canonical_depends_on_day(t1 % 1440 + t2 % 1440, t1 + t2);
}

} // verus!
