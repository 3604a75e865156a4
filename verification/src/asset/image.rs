//! Static image textures: decoded RGBA pixel data uploaded into one GPU
//! texture with a view and a clamp-to-edge, linear-filter sampler.

use vstd::prelude::*;

use crate::gpu;

verus! {

/// A decoded image as plain data: tightly packed RGBA8 rows.
pub struct RawImage {
    pub width: u32,
    pub height: u32,
    pub rgba: Vec<u8>,
}

impl RawImage {
    /// The pixel buffer holds exactly four bytes per pixel.
    pub open spec fn wf(self) -> bool {
        self.rgba@.len() == 4 * self.width * self.height
    }
}

/// A GPU texture created from one decoded image, with its view and sampler.
pub struct ImageTexture {
    pub texture: wgpu::Texture,
    pub view: wgpu::TextureView,
    pub sampler: wgpu::Sampler,
}

impl ImageTexture {
    /// Uploads a decoded image into a fresh texture. Textures are not shared
    /// across layers; every call allocates a new one. Each side must have at
    /// least one pixel and stay within the device's texture limit, which the
    /// GPU enforces.
    pub fn from_image(
        device: &wgpu::Device,
        queue: &wgpu::Queue,
        image: &RawImage,
        label: &str,
    ) -> (r: Self)
        requires
            image.wf(),
            1 <= image.width <= gpu::MAX_TEXTURE_DIMENSION,
            1 <= image.height <= gpu::MAX_TEXTURE_DIMENSION,
    {
        let texture = gpu::create_texture_rgba(
            device,
            queue,
            label,
            image.width,
            image.height,
            &image.rgba,
        );
        let view = gpu::create_default_view(&texture);
        let sampler = gpu::create_clamp_sampler(device);
        ImageTexture { texture, view, sampler }
    }
}

} // verus!
