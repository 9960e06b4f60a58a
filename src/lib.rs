//! Date-partitioned Markdown notes: where each kind of note lives, and the
//! decisions taken when a note is opened for editing.

pub mod date;
pub mod text;
pub mod kind;
pub mod resolve;
pub mod error;
pub mod config;
pub mod store;
pub mod service;
