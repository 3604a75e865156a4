//! Rendering-side state: resource cache, render models, pipeline assembly,
//! and the per-display layer state machine.

pub mod client;
pub mod config;
pub mod manager;
pub mod models;
pub mod pipeline;
pub mod wallpaper_layer;
