//! The static image render model: one texture uploaded from a decoded
//! image, drawn with the shared texture pipeline. Its bind set never
//! changes.

use std::sync::Arc;
use vstd::prelude::*;

use crate::asset::image::{ImageTexture, RawImage};
use crate::gpu;
use crate::renderer::manager::Manager;

verus! {

/// A renderable static image: its texture and the shared pipeline and bind
/// set. It has no per-frame behavior.
pub struct TextureModel {
    /// The uploaded texture with its view and sampler.
    pub texture: ImageTexture,
    /// The shared compiled pipeline.
    pub render_pipeline: Arc<wgpu::RenderPipeline>,
    /// The bind set referencing this instance's texture.
    pub bind_group: Arc<wgpu::BindGroup>,
}

impl TextureModel {
    /// Assembles a texture model from its parts.
    pub fn new(
        texture: ImageTexture,
        render_pipeline: Arc<wgpu::RenderPipeline>,
        bind_group: Arc<wgpu::BindGroup>,
    ) -> (r: Self)
        ensures
            r.texture == texture,
            r.render_pipeline == render_pipeline,
            r.bind_group == bind_group,
    {
        TextureModel { texture, render_pipeline, bind_group }
    }

    /// The shared pipeline this model draws with.
    pub fn pipeline(&self) -> &Arc<wgpu::RenderPipeline> {
        &self.render_pipeline
    }

    /// The bind set this model draws with.
    pub fn bindgroup(&self) -> &Arc<wgpu::BindGroup> {
        &self.bind_group
    }
}

/// Builds a static image render model from a decoded image.
pub struct TextureModelBuilder {
    /// The decoded image to upload.
    pub image: RawImage,
    /// A debugging label for the GPU objects.
    pub label: String,
}

impl TextureModelBuilder {
    /// A builder for the given decoded image.
    pub fn new(image: RawImage, label: String) -> (r: Self)
        ensures
            r.image == image,
            r.label@ == label@,
    {
        TextureModelBuilder { image, label }
    }

    /// Builds the model: uploads the image to a fresh texture, fetches or
    /// creates the shared layout and pipeline under their stable labels, and
    /// allocates the bind set.
    pub fn build<F: FnOnce() -> Arc<wgpu::BindGroupLayout>, G: FnOnce() -> Arc<
        wgpu::RenderPipeline,
    >>(
        &self,
        device: &wgpu::Device,
        queue: &wgpu::Queue,
        layouts: &mut Manager<wgpu::BindGroupLayout>,
        pipelines: &mut Manager<wgpu::RenderPipeline>,
        layout_factory: F,
        pipeline_factory: G,
    ) -> (r: TextureModel)
        requires
            old(layouts).wf(),
            old(pipelines).wf(),
            self.image.wf(),
            1 <= self.image.width <= crate::gpu::MAX_TEXTURE_DIMENSION,
            1 <= self.image.height <= crate::gpu::MAX_TEXTURE_DIMENSION,
            call_requires(layout_factory, ()),
            call_requires(pipeline_factory, ()),
        ensures
            final(layouts).wf(),
            final(pipelines).wf(),
            final(layouts).spec_has("texture_bind_group_layout"@),
            final(pipelines).spec_has("texture_render_pipeline"@),
            final(pipelines).spec_get("texture_render_pipeline"@) == Some(r.render_pipeline),
            old(layouts).spec_has("texture_bind_group_layout"@) ==> *final(layouts) == *old(
                layouts,
            ),
            old(pipelines).spec_has("texture_render_pipeline"@) ==> *final(pipelines) == *old(
                pipelines,
            ),
            forall|k: Seq<char>|
                k != "texture_bind_group_layout"@ ==> final(layouts).spec_get(k) == old(
                    layouts,
                ).spec_get(k),
            forall|k: Seq<char>|
                k != "texture_render_pipeline"@ ==> final(pipelines).spec_get(k) == old(
                    pipelines,
                ).spec_get(k),
    {
        let texture = ImageTexture::from_image(device, queue, &self.image, self.label.as_str());
        let layout = layouts.get_or_init("texture_bind_group_layout", layout_factory);
        let pipeline = pipelines.get_or_init("texture_render_pipeline", pipeline_factory);
        let bind_group = Arc::new(
            gpu::create_texture_bind_group(
                device,
                &layout,
                &texture.view,
                &texture.sampler,
                self.label.as_str(),
            ),
        );
        TextureModel::new(texture, pipeline, bind_group)
    }
}

} // verus!
