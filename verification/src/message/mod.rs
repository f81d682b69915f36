//! Parts of a message and their binary form.

pub mod conflict;
pub mod error;
pub mod indexation;
pub mod metadata;
pub mod reader;
