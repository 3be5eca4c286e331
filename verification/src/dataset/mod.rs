//! A dataset as the daemon is told of it: its name, its description and the
//! backend that stores it.

pub mod error;
pub mod models;
