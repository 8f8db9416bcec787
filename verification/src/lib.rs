//! Users with an optional attached profile and a derived textual summary.
//!
//! A `Profile` holds a biography string; a `User` holds a name, an age and
//! at most one owned `Profile`. `User::summary` derives a display line from
//! those fields, and its contract pins the line down character by character.

pub mod decimal;
pub mod profile;
pub mod user;
