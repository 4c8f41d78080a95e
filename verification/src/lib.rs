//! Bright-star catalogue records and astronomical time scales, in exact
//! integer arithmetic.
//!
//! * [`julian`]: the Julian Date of a calendar date and time of day.
//! * [`sidereal`]: the local mean sidereal time of a date, time of day and
//!   longitude, and its clock reading.
//! * [`text`]: trimming of fixed-width text fields, and the syntax of the
//!   numbers in them.
//! * [`catalog`]: fixed-width catalogue lines and the table built from them.

pub mod catalog;
pub mod julian;
pub mod sidereal;
pub mod text;

pub use catalog::{load_bsc_stars, parse_line, Field, LineError, LoadError, Star};
pub use julian::{date_to_jd, JulianDate};
pub use sidereal::{date_to_sideral, sidereal_clock};
pub use text::{parse_decimal, parse_real, parse_unsigned, trim, Decimal, Real};
