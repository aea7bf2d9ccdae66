//! The particles that a match throws off.

pub mod meta;
