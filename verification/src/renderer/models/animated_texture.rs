//! The animated image render model: an animated texture advanced before
//! each draw, rebuilding its bind set only when the visible frame changed.

use std::sync::Arc;
use vstd::prelude::*;

use crate::asset::animated::{
    sat_add_u64, spec_advance, spec_animation_durations, spec_animation_frames, AnimatedKind,
    AnimatedTexture,
};
use crate::asset::damage::Damage;
use crate::asset::Asset;
use crate::gpu;
use crate::renderer::manager::Manager;

verus! {

/// A renderable animated image: the frames with their timing state, the
/// shared pipeline, and the bind set referencing the visible frame.
pub struct AnimatedTextureModel {
    /// The frames and the animation's timing state.
    pub texture: AnimatedTexture,
    /// The shared compiled pipeline.
    pub render_pipeline: Arc<wgpu::RenderPipeline>,
    /// The bind set referencing the visible frame's view.
    pub bind_group: Arc<wgpu::BindGroup>,
    /// The shared layout, kept to rebuild the bind set on frame changes.
    pub bind_group_layout: Arc<wgpu::BindGroupLayout>,
    /// Whether the bind set still references an earlier frame and must be
    /// rebuilt before the next draw.
    pub bind_group_stale: bool,
}

impl AnimatedTextureModel {
    /// Assembles an animated texture model from its parts.
    pub fn new(
        texture: AnimatedTexture,
        render_pipeline: Arc<wgpu::RenderPipeline>,
        bind_group: Arc<wgpu::BindGroup>,
        bind_group_layout: Arc<wgpu::BindGroupLayout>,
    ) -> (r: Self)
        ensures
            r.texture == texture,
            r.render_pipeline == render_pipeline,
            r.bind_group == bind_group,
            r.bind_group_layout == bind_group_layout,
            !r.bind_group_stale,
    {
        AnimatedTextureModel {
            texture,
            render_pipeline,
            bind_group,
            bind_group_layout,
            bind_group_stale: false,
        }
    }

    /// The shared pipeline this model draws with.
    pub fn pipeline(&self) -> &Arc<wgpu::RenderPipeline> {
        &self.render_pipeline
    }

    /// The bind set this model draws with.
    pub fn bindgroup(&self) -> &Arc<wgpu::BindGroup> {
        &self.bind_group
    }

    /// Advances the animation by `dt_ms` of real time and, only if the
    /// visible frame changed, marks the bind set stale so it is rebuilt to
    /// reference the new frame's view before the next draw; between frame
    /// boundaries the bind set is left alone.
    pub fn pre_render(&mut self, dt_ms: u64) -> (changed: bool)
        requires
            old(self).texture.wf(),
        ensures
            final(self).texture.wf(),
            final(self).texture.spec_durations() == old(self).texture.spec_durations(),
            final(self).texture.spec_looping() == old(self).texture.spec_looping(),
            old(self).texture.spec_durations().len() > 1 ==> {
                let r = spec_advance(
                    old(self).texture.spec_durations(),
                    old(self).texture.spec_current(),
                    sat_add_u64(old(self).texture.spec_acc() as u64, dt_ms) as nat,
                    old(self).texture.spec_looping(),
                );
                &&& final(self).texture.spec_current() == r.0
                &&& final(self).texture.spec_acc() == r.1
            },
            old(self).texture.spec_durations().len() <= 1 ==> *final(self) == *old(self),
            changed == (final(self).texture.spec_current() != old(self).texture.spec_current()),
            !changed ==> *final(self) == (AnimatedTextureModel {
                texture: final(self).texture,
                ..*old(self)
            }),
            changed ==> final(self).bind_group_stale,
            final(self).bind_group == old(self).bind_group,
            final(self).render_pipeline == old(self).render_pipeline,
            final(self).bind_group_layout == old(self).bind_group_layout,
    {
        let changed = self.texture.update(dt_ms);
        if !changed {
            return false;
        }
        self.bind_group_stale = true;
        true
    }

    /// Rebuilds the bind set to reference the visible frame's view, if a
    /// frame change left it stale; otherwise the bind set is left alone.
    /// That the fresh bind set binds exactly the view and sampler passed to
    /// it is the bind-group wrapper's documented behavior; over opaque
    /// handles no contract here can restate it.
    pub fn refresh_bind_group(&mut self, device: &wgpu::Device)
        requires
            old(self).texture.wf(),
        ensures
            final(self).texture.wf(),
            final(self).texture == old(self).texture,
            final(self).render_pipeline == old(self).render_pipeline,
            final(self).bind_group_layout == old(self).bind_group_layout,
            !final(self).bind_group_stale,
            !old(self).bind_group_stale ==> *final(self) == *old(self),
    {
        if !self.bind_group_stale {
            return;
        }
        self.bind_group = Arc::new(
            gpu::create_texture_bind_group(
                device,
                &self.bind_group_layout,
                self.texture.view(),
                self.texture.sampler(),
                "animated_texture_bind_group",
            ),
        );
        self.bind_group_stale = false;
    }
}

impl Asset for AnimatedTextureModel {
    /// A frame change invalidates the whole surface; between frame
    /// boundaries nothing is damaged.
    fn damage(&self) -> (r: Damage)
        ensures
            self.bind_group_stale <==> r is Full,
            !self.bind_group_stale <==> r is Empty,
    {
        if self.bind_group_stale {
            Damage::Full
        } else {
            Damage::Empty
        }
    }
}

/// Builds an animated image render model from an encoded file.
pub struct AnimatedTextureModelBuilder {
    /// Absolute path of the encoded animation file.
    pub path: String,
    /// A debugging label for the GPU objects.
    pub label: String,
    /// Whether the animation starts over after its last frame.
    pub looping: bool,
}

impl AnimatedTextureModelBuilder {
    /// A builder for the animation at `path`; it loops unless told not to.
    pub fn new(path: String, label: String) -> (r: Self)
        ensures
            r.path@ == path@,
            r.label@ == label@,
            r.looping,
    {
        AnimatedTextureModelBuilder { path, label, looping: true }
    }

    /// Sets whether the animation loops.
    pub fn looping(self, looping: bool) -> (r: Self)
        ensures
            r.path@ == self.path@,
            r.label@ == self.label@,
            r.looping == looping,
    {
        AnimatedTextureModelBuilder { path: self.path, label: self.label, looping }
    }

    /// Builds the model from the encoded file's bytes: decodes the frames
    /// (falling back to a single static frame when the stream has none),
    /// uploads them, fetches or creates the shared layout and pipeline under
    /// their stable labels, and binds the first frame. It yields a model
    /// exactly when the bytes hold animation frames or decode to a usable
    /// still image.
    pub fn build<F: FnOnce() -> Arc<wgpu::BindGroupLayout>, G: FnOnce() -> Arc<
        wgpu::RenderPipeline,
    >>(
        &self,
        device: &wgpu::Device,
        queue: &wgpu::Queue,
        data: &Vec<u8>,
        kind: AnimatedKind,
        layouts: &mut Manager<wgpu::BindGroupLayout>,
        pipelines: &mut Manager<wgpu::RenderPipeline>,
        layout_factory: F,
        pipeline_factory: G,
    ) -> (r: Option<AnimatedTextureModel>)
        requires
            old(layouts).wf(),
            old(pipelines).wf(),
            call_requires(layout_factory, ()),
            call_requires(pipeline_factory, ()),
        ensures
            final(layouts).wf(),
            final(pipelines).wf(),
            r is Some <==> (spec_animation_frames(kind, data@) >= 1
                || crate::decode::spec_decodes_usable(data@)),
            r matches Some(m) ==> {
                &&& m.texture.wf()
                &&& m.texture.spec_current() == 0
                &&& m.texture.spec_acc() == 0
                &&& m.texture.spec_looping() == self.looping
            },
            r matches Some(m) ==> (spec_animation_frames(kind, data@) >= 1
                ==> m.texture.spec_durations() == spec_animation_durations(kind, data@)),
            r is Some ==> final(layouts).spec_has("texture_bind_group_layout"@),
            r is Some ==> final(pipelines).spec_has("texture_render_pipeline"@),
            r matches Some(m) ==> final(pipelines).spec_get("texture_render_pipeline"@) == Some(
                m.render_pipeline,
            ),
            r matches Some(m) ==> final(layouts).spec_get("texture_bind_group_layout"@) == Some(
                m.bind_group_layout,
            ),
            old(layouts).spec_has("texture_bind_group_layout"@) ==> *final(layouts) == *old(
                layouts,
            ),
            old(pipelines).spec_has("texture_render_pipeline"@) ==> *final(pipelines) == *old(
                pipelines,
            ),
            forall|k: Seq<char>|
                k != "texture_bind_group_layout"@ ==> final(layouts).spec_get(k) == old(
                    layouts,
                ).spec_get(k),
            forall|k: Seq<char>|
                k != "texture_render_pipeline"@ ==> final(pipelines).spec_get(k) == old(
                    pipelines,
                ).spec_get(k),
    {
        let texture = match AnimatedTexture::from_bytes(
            device,
            queue,
            data,
            kind,
            self.label.as_str(),
            self.looping,
        ) {
            Some(t) => t,
            None => {
                return None;
            },
        };
        let layout = layouts.get_or_init("texture_bind_group_layout", layout_factory);
        let pipeline = pipelines.get_or_init("texture_render_pipeline", pipeline_factory);
        let bind_group = Arc::new(
            gpu::create_texture_bind_group(
                device,
                &layout,
                texture.view(),
                texture.sampler(),
                self.label.as_str(),
            ),
        );
        Some(AnimatedTextureModel::new(texture, pipeline, bind_group, layout))
    }
}

} // verus!
