//! Version-control engine, storage layout and request rules of a daemon that
//! keeps the history of file-based datasets.

pub mod backend;
pub mod cache;
pub mod content;
pub mod dataset;
pub mod error;
pub mod hash;
pub mod model;
pub mod pipeline;
pub mod staging;
pub mod string_map;
pub mod text;
pub mod version_control;
