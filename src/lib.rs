//! Helpers for exercising Iron handlers in-process: synthetic request bodies
//! (plain text and multipart/form-data), a mock network stream, and a builder
//! for temporary project directories.

pub mod headers;
pub mod mock_stream;
pub mod path;
pub mod request;
mod project_builder;

pub use project_builder::{FileBuilder, ProjectBuilder};
