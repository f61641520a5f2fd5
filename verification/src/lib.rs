//! Small text-producing helpers: one-line salutations and a `Person` record
//! that introduces itself and celebrates birthdays.
//!
//! Every function states the exact characters it returns, over `Seq<char>`
//! models of the strings involved.

pub mod decimal;
pub mod greeting;
pub mod person;
