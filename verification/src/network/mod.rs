//! The peers of a node and the service that manages them.

pub mod command;
pub mod event;
pub mod host;
pub mod laws;
pub mod list;
pub mod outcomes;
pub mod peer;
pub mod run;
pub mod text_set;
