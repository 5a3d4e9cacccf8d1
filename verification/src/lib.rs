//! Elapsed-time phrase library.
//!
//! Measures the time elapsed since a fixed past instant and renders it as a
//! human-readable phrase such as `"1 day, 2 hours, and 3 seconds"`. The
//! breakdown into days, hours, minutes and seconds, the pluralization of each
//! unit, the omission of zero-valued higher units and the comma joining are
//! all verified against a mathematical description of the phrase.

pub mod breakdown;
pub mod clock;
pub mod decimal;
pub mod driver;
pub mod phrase;
pub mod sleep;
