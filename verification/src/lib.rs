//! A small content store: uploads are checked, confined beneath one storage
//! root, gathered under a size cap and handed out again by path.
//!
//! The library decides; it performs no I/O. Each operation is a function from
//! plain values to plain values, and the upload is a state machine whose
//! pending step tells the caller which outside work to do next.

pub mod config;
pub mod content;
pub mod error;
pub mod guard;
pub mod laws;
pub mod path;
pub mod store;
pub mod upload;
