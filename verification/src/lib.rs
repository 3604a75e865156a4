//! Core of a layered, animated wallpaper engine for Wayland desktops.
//!
//! The library holds the engine's decision logic: the label-keyed resource
//! cache for shared GPU objects, the asset loaders with their animation
//! timing, the per-kind render model builders, the z-ordered pipeline
//! assembly, the per-display pacing state machine, and the handling of
//! control-channel requests. Compositor protocol plumbing, file and socket
//! I/O, and raw render-pass recording live in the surrounding application.

mod decode;
mod gpu;

pub mod asset;
pub mod manifest;
pub mod renderer;
pub mod types;
pub mod utils;
pub mod wallpaper;

pub use renderer::config::OutputConfig;
