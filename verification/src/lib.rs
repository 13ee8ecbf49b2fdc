//! Loading hyphenation dictionaries from encoded bytes.
//!
//! A dictionary record is decoded by the binary codec under a fixed size
//! ceiling, its language tag is compared with the language that the caller
//! asked for, and every way in which this can fail is reported as one of a
//! closed set of error kinds.

pub mod error;
pub mod guarantees;
pub mod language;
pub mod load;
pub mod resource;
