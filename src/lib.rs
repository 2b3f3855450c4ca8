//! Parameter resolution and transform planning for an image-manipulation service.
//!
//! The library sniffs image formats from leading bytes, validates uploads,
//! resolves loosely typed request fields into concrete operation parameters and
//! turns them into a deterministic list of primitive pixel operations, which
//! the per-operation pipelines apply through the `image` crate.

pub mod color;
pub mod decimal;
pub mod engine;
pub mod error;
pub mod format;
pub mod info;
pub mod pipeline;
pub mod plan;
pub mod resolve;
pub mod text;
pub mod validation;
