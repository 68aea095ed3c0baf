//! Query dispatch and reporting pipeline.
//!
//! Given a query source (inline text, a local file, a remote URL, or standard
//! input), this library splits the source into individual statements, derives
//! the HTTP endpoint they are submitted to, sequences the per-statement
//! round trips, and renders the returned rows and execution statistics.
//! The I/O itself (file reads, HTTP requests) is performed by the caller;
//! every decision and every piece of text the pipeline produces is verified.

pub mod dispatch;
pub mod endpoint;
pub mod error;
pub mod num;
pub mod render;
pub mod response;
pub mod source;
pub mod split;
pub mod stats;
pub mod text;
