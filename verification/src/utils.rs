//! Helpers that stand apart from bills and nodes.

pub mod console;
