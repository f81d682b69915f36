//! Random values.

pub mod message_metadata;
pub mod number;
