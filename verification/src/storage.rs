//! Keeping secrets.

pub mod encryption;
