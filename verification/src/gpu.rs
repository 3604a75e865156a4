//! Declarations of the GPU library's types and thin trusted wrappers around
//! the handful of GPU calls the engine makes. The objects are opaque handles;
//! nothing about their contents is claimed, only how the engine's own state
//! relates to the calls it issues.

use vstd::prelude::*;

verus! {

/// The largest texture edge the engine allocates. The application binds its
/// device with the default limits, whose 2D-texture maximum this is; a
/// larger texture is a validation error on such a device.
pub const MAX_TEXTURE_DIMENSION: u32 = 8192;

/// The largest buffer the engine allocates: the default device limits'
/// maximum buffer size.
pub const MAX_BUFFER_SIZE: u64 = 268_435_456;

#[verifier::external_type_specification]
#[verifier::external_body]
pub struct ExDevice(wgpu::Device);

#[verifier::external_type_specification]
#[verifier::external_body]
pub struct ExQueue(wgpu::Queue);

#[verifier::external_type_specification]
#[verifier::external_body]
pub struct ExTexture(wgpu::Texture);

#[verifier::external_type_specification]
#[verifier::external_body]
pub struct ExTextureView(wgpu::TextureView);

#[verifier::external_type_specification]
#[verifier::external_body]
pub struct ExSampler(wgpu::Sampler);

#[verifier::external_type_specification]
#[verifier::external_body]
pub struct ExBuffer(wgpu::Buffer);

#[verifier::external_type_specification]
#[verifier::external_body]
pub struct ExBindGroup(wgpu::BindGroup);

#[verifier::external_type_specification]
#[verifier::external_body]
pub struct ExBindGroupLayout(wgpu::BindGroupLayout);

#[verifier::external_type_specification]
#[verifier::external_body]
pub struct ExRenderPipeline(wgpu::RenderPipeline);

/// Relies on `wgpu::Device::create_texture` and `wgpu::Queue::write_texture`:
/// allocates a 2D RGBA8 texture of the given pixel size and schedules the
/// tightly packed pixel rows into it. Creation and upload use one and the
/// same extent, so the copy can never exceed the texture. A zero edge is a
/// validation error on every device and an edge above the 2D-texture limit
/// is one under the default limits the application binds, so both are
/// excluded; the byte count is pinned to the extent.
#[verifier::external_body]
pub(crate) fn create_texture_rgba(
    device: &wgpu::Device,
    queue: &wgpu::Queue,
    label: &str,
    width: u32,
    height: u32,
    data: &Vec<u8>,
) -> (r: wgpu::Texture)
    requires
        1 <= width <= MAX_TEXTURE_DIMENSION,
        1 <= height <= MAX_TEXTURE_DIMENSION,
        data@.len() == 4 * width * height,
{
    let size = wgpu::Extent3d { width, height, depth_or_array_layers: 1 };
    let texture = device.create_texture(&wgpu::TextureDescriptor {
        label: Some(label),
        size,
        mip_level_count: 1,
        sample_count: 1,
        dimension: wgpu::TextureDimension::D2,
        format: wgpu::TextureFormat::Rgba8Unorm,
        usage: wgpu::TextureUsages::TEXTURE_BINDING | wgpu::TextureUsages::COPY_DST,
        view_formats: &[],
    });
    let rows = wgpu::TexelCopyBufferLayout { offset: 0, bytes_per_row: Some(4 * width), rows_per_image: Some(height) };
    queue.write_texture(texture.as_image_copy(), data, rows, size);
    texture
}

/// Relies on `wgpu::Texture::create_view`: a view of the whole texture with
/// default settings.
#[verifier::external_body]
pub(crate) fn create_default_view(texture: &wgpu::Texture) -> (r: wgpu::TextureView) {
    texture.create_view(&wgpu::TextureViewDescriptor::default())
}

/// Relies on `wgpu::Device::create_sampler`: a clamp-to-edge sampler with
/// linear magnification and nearest minification, as every image layer uses.
#[verifier::external_body]
pub(crate) fn create_clamp_sampler(device: &wgpu::Device) -> (r: wgpu::Sampler) {
    device.create_sampler(&wgpu::SamplerDescriptor {
        address_mode_u: wgpu::AddressMode::ClampToEdge,
        address_mode_v: wgpu::AddressMode::ClampToEdge,
        address_mode_w: wgpu::AddressMode::ClampToEdge,
        mag_filter: wgpu::FilterMode::Linear,
        min_filter: wgpu::FilterMode::Nearest,
        mipmap_filter: wgpu::MipmapFilterMode::Nearest,
        ..Default::default()
    })
}

/// Relies on `wgpu::Device::create_buffer`: a uniform buffer of `size` bytes
/// that copies can be written into. A size above the default limits' maximum
/// buffer size is a validation error, so it is excluded.
#[verifier::external_body]
pub(crate) fn create_uniform_buffer(device: &wgpu::Device, label: &str, size: u64) -> (r:
    wgpu::Buffer)
    requires
        size <= MAX_BUFFER_SIZE,
{
    device.create_buffer(&wgpu::BufferDescriptor {
        label: Some(label),
        size,
        usage: wgpu::BufferUsages::UNIFORM | wgpu::BufferUsages::COPY_DST,
        mapped_at_creation: false,
    })
}

/// Relies on `wgpu::Device::create_buffer`: a storage buffer of `size` bytes
/// readable from vertex shaders, used for the particle pool mirror. A size
/// above the default limits' maximum buffer size is a validation error, so
/// it is excluded.
#[verifier::external_body]
pub(crate) fn create_particle_buffer(device: &wgpu::Device, label: &str, size: u64) -> (r:
    wgpu::Buffer)
    requires
        size <= MAX_BUFFER_SIZE,
{
    device.create_buffer(&wgpu::BufferDescriptor {
        label: Some(label),
        size,
        usage: wgpu::BufferUsages::VERTEX | wgpu::BufferUsages::COPY_DST,
        mapped_at_creation: false,
    })
}

/// Relies on `wgpu::Device::create_bind_group`: binds one texture view and
/// one sampler, in that binding order, as the texture shaders expect. The
/// layout must describe exactly this shape — a mismatch is a validation
/// error the contract cannot exclude over opaque handles; every caller
/// passes the cache entry its factory created for this shape.
#[verifier::external_body]
pub(crate) fn create_texture_bind_group(
    device: &wgpu::Device,
    layout: &wgpu::BindGroupLayout,
    view: &wgpu::TextureView,
    sampler: &wgpu::Sampler,
    label: &str,
) -> (r: wgpu::BindGroup) {
    device.create_bind_group(&wgpu::BindGroupDescriptor {
        layout,
        entries: &[
            wgpu::BindGroupEntry { binding: 0, resource: wgpu::BindingResource::TextureView(view) },
            wgpu::BindGroupEntry { binding: 1, resource: wgpu::BindingResource::Sampler(sampler) },
        ],
        label: Some(label),
    })
}

/// Relies on `wgpu::Device::create_bind_group`: binds one uniform buffer at
/// binding zero, as the solid-color shader expects. The layout must describe
/// exactly this shape — a mismatch is a validation error the contract cannot
/// exclude over opaque handles; every caller passes the cache entry its
/// factory created for this shape.
#[verifier::external_body]
pub(crate) fn create_buffer_bind_group(
    device: &wgpu::Device,
    layout: &wgpu::BindGroupLayout,
    buffer: &wgpu::Buffer,
    label: &str,
) -> (r: wgpu::BindGroup) {
    device.create_bind_group(&wgpu::BindGroupDescriptor {
        layout,
        entries: &[
            wgpu::BindGroupEntry { binding: 0, resource: buffer.as_entire_binding() },
        ],
        label: Some(label),
    })
}

/// Relies on `wgpu::Device::create_bind_group`: binds a texture view, a
/// sampler and a parameter buffer, in that binding order, as the effect and
/// particle shaders expect. The layout must describe exactly this shape — a
/// mismatch is a validation error the contract cannot exclude over opaque
/// handles; every caller passes the cache entry its factory created for
/// this shape.
#[verifier::external_body]
pub(crate) fn create_texture_buffer_bind_group(
    device: &wgpu::Device,
    layout: &wgpu::BindGroupLayout,
    view: &wgpu::TextureView,
    sampler: &wgpu::Sampler,
    buffer: &wgpu::Buffer,
    label: &str,
) -> (r: wgpu::BindGroup) {
    device.create_bind_group(&wgpu::BindGroupDescriptor {
        layout,
        entries: &[
            wgpu::BindGroupEntry { binding: 0, resource: wgpu::BindingResource::TextureView(view) },
            wgpu::BindGroupEntry { binding: 1, resource: wgpu::BindingResource::Sampler(sampler) },
            wgpu::BindGroupEntry { binding: 2, resource: buffer.as_entire_binding() },
        ],
        label: Some(label),
    })
}

} // verus!
