//! Verified render-configuration and frame-planning core of the Myth renderer.
//!
//! The GPU-facing work (device creation, pipeline compilation, command
//! encoding) is driven by thin glue around this crate; everything that
//! *decides* — which passes run, which caches rebuild, which pipeline variant
//! is selected, how resources are sized — lives here with its contract.

pub mod format;
pub mod settings;
pub mod graph;
pub mod renderer;
pub mod pipeline;
