//! Verified building blocks of a browser engine's graphics, style and
//! telemetry layers.
//!
//! The largest part is [`valid`]: the validator that decides, for every type
//! of a shader module, whether it is well formed, which capabilities it has
//! and how it may be laid out in uniform and storage memory.

pub mod metrics;
pub mod scene_builder;
pub mod selector;
pub mod transform;
pub mod use_counters;
pub mod valid;
