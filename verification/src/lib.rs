//! Turns one source image into a complete set of web icon artifacts.
//!
//! The crate holds the decisions of the icon pipeline: which sizes belong to a
//! coverage tier, how a run tracks and rolls back its outputs, how a manifest
//! is merged, and how reference tags are inferred, deduplicated and ordered.
//! Reading and writing files is left to the caller.

pub mod cli;
pub mod container;
pub mod error;
pub mod icon_sizes;
pub mod img;
pub mod link;
pub mod manifest;
pub mod pipeline;
pub mod svg;
pub mod text;
pub mod tracker;
