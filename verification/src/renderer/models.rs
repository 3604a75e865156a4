//! Render models, one per visual kind: solid color, static image, animated
//! image, shader effect, and particle field. Each model owns its bind set
//! and per-instance data and shares the compiled pipeline and layout through
//! the resource caches.

pub mod animated_texture;
pub mod effect;
pub mod particle;
pub mod color;
pub mod texture;
