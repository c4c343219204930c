//! A wall-clock time value with automatic wraparound: hours modulo 24,
//! minutes modulo 60. A zero-sized format tag selects, at compile time,
//! between a 24-hour and a 12-hour (a.m./p.m.) rendering of the same
//! canonical value.

pub mod clock;
pub mod display;
