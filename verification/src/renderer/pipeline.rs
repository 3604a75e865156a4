//! The ordered list of renderables a display draws, and its assembly from a
//! wallpaper's projected layers. A renderable is a closed set of kinds, and
//! its per-frame update is dispatched by matching on the kind.

use std::sync::Arc;
use vstd::prelude::*;

use crate::asset::animated::{sat_add_u64, spec_advance, spec_animation_frames, AnimatedKind};
use crate::decode::{decode_image, spec_decodes_usable};
use crate::manifest::{ParamValue, ShaderType};
use crate::renderer::manager::Manager;
use crate::renderer::models::animated_texture::{AnimatedTextureModel, AnimatedTextureModelBuilder};
use crate::renderer::models::color::{ColorModel, ColorModelBuilder};
use crate::renderer::models::effect::{spec_time_wrap_ms, EffectModel, EffectModelBuilder};
use crate::renderer::models::particle::{ParticleModel, ParticleModelBuilder, MAX_POOL_CAPACITY};
use crate::renderer::models::texture::{TextureModel, TextureModelBuilder};
use crate::utils::{ends_with_ignore_ascii_case, spec_ends_with_ignore_ascii_case};
use crate::wallpaper::{LayerType, RenderLayer};

verus! {

/// One renderable object: a solid color, a static texture, an animated
/// texture, a shader effect, or a particle field.
pub enum Renderable {
    Color(ColorModel),
    Texture(TextureModel),
    Animated(AnimatedTextureModel),
    Effect(EffectModel),
    Particle(ParticleModel),
}

/// The well-formedness a renderable carries: its timing or pool state is
/// consistent.
pub open spec fn spec_renderable_wf(r: Renderable) -> bool {
    match r {
        Renderable::Animated(m) => m.texture.wf(),
        Renderable::Particle(p) => p.wf(),
        _ => true,
    }
}

/// How one pre-render tick of `dt` milliseconds relates a renderable's old
/// and new state: colors, textures and particle fields are untouched; an
/// animated texture advances its timing; an animated effect advances its
/// time value.
pub open spec fn spec_renderable_ticked(o: Renderable, n: Renderable, dt: u64) -> bool {
    match (o, n) {
        (Renderable::Color(a), Renderable::Color(b)) => a == b,
        (Renderable::Texture(a), Renderable::Texture(b)) => a == b,
        (Renderable::Particle(a), Renderable::Particle(b)) => a == b,
        (Renderable::Animated(a), Renderable::Animated(b)) => {
            &&& b.texture.wf()
            &&& b.texture.spec_durations() == a.texture.spec_durations()
            &&& b.texture.spec_looping() == a.texture.spec_looping()
            &&& b.bind_group == a.bind_group
            &&& b.render_pipeline == a.render_pipeline
            &&& (a.texture.spec_durations().len() > 1 ==> {
                let r = spec_advance(
                    a.texture.spec_durations(),
                    a.texture.spec_current(),
                    sat_add_u64(a.texture.spec_acc() as u64, dt) as nat,
                    a.texture.spec_looping(),
                );
                b.texture.spec_current() == r.0 && b.texture.spec_acc() == r.1
            })
            &&& (a.texture.spec_durations().len() <= 1 ==> b == a)
        },
        (Renderable::Effect(a), Renderable::Effect(b)) => {
            if a.animated && a.params_buffer is Some {
                let advanced = sat_add_u64(a.current_time_ms, dt);
                &&& b.current_time_ms == (if advanced > spec_time_wrap_ms() {
                    (advanced - spec_time_wrap_ms()) as u64
                } else {
                    advanced
                })
                &&& b.params == a.params
                &&& b.animated
                &&& b.params_buffer is Some
            } else {
                b == a
            }
        },
        _ => false,
    }
}

impl Renderable {
    /// The shared pipeline this renderable draws with.
    pub fn pipeline(&self) -> &Arc<wgpu::RenderPipeline> {
        match self {
            Renderable::Color(m) => m.pipeline(),
            Renderable::Texture(m) => m.pipeline(),
            Renderable::Animated(m) => m.pipeline(),
            Renderable::Effect(m) => m.pipeline(),
            Renderable::Particle(m) => &m.render_pipeline,
        }
    }

    /// The bind set this renderable draws with.
    pub fn bindgroup(&self) -> &Arc<wgpu::BindGroup> {
        match self {
            Renderable::Color(m) => m.bindgroup(),
            Renderable::Texture(m) => m.bindgroup(),
            Renderable::Animated(m) => m.bindgroup(),
            Renderable::Effect(m) => m.bindgroup(),
            Renderable::Particle(m) => &m.bind_group,
        }
    }

    /// Advances this renderable's per-frame state by `dt_ms` of real time:
    /// an animated texture steps its frames (marking its bind set stale on a
    /// frame change), an animated effect advances its time value, and every
    /// other kind is a no-op.
    pub fn pre_render(&mut self, dt_ms: u64)
        requires
            spec_renderable_wf(*old(self)),
        ensures
            spec_renderable_wf(*final(self)),
            spec_renderable_ticked(*old(self), *final(self), dt_ms),
    {
        match self {
            Renderable::Animated(m) => {
                m.pre_render(dt_ms);
            },
            Renderable::Effect(m) => {
                m.update_time(dt_ms);
            },
            _ => {},
        }
    }

    /// Rebuilds whatever bind sets per-frame updates left stale.
    pub fn refresh(&mut self, device: &wgpu::Device)
        requires
            spec_renderable_wf(*old(self)),
        ensures
            spec_renderable_wf(*final(self)),
            spec_renderable_refreshed(*old(self), *final(self)),
    {
        match self {
            Renderable::Animated(m) => {
                m.refresh_bind_group(device);
            },
            _ => {},
        }
    }
}

/// How a bind-set refresh relates a renderable's old and new state: only an
/// animated texture with a stale bind set changes, and only its bind set;
/// its frames and timing stay as they were.
pub open spec fn spec_renderable_refreshed(o: Renderable, n: Renderable) -> bool {
    match (o, n) {
        (Renderable::Animated(a), Renderable::Animated(b)) => {
            &&& b.texture == a.texture
            &&& b.render_pipeline == a.render_pipeline
            &&& b.bind_group_layout == a.bind_group_layout
            &&& !b.bind_group_stale
            &&& (!a.bind_group_stale ==> b == a)
        },
        _ => n == o,
    }
}

/// The ordered renderables of one display, drawn back to front.
pub struct Pipelines {
    /// The renderables in painting order.
    pub data: Vec<Renderable>,
}

impl Pipelines {
    /// An empty list.
    pub fn new() -> (r: Self)
        ensures
            r.data@.len() == 0,
    {
        Pipelines { data: Vec::new() }
    }

    /// An empty list with room for `capacity` renderables.
    pub fn with_capacity(capacity: usize) -> (r: Self)
        ensures
            r.data@.len() == 0,
    {
        Pipelines { data: Vec::with_capacity(capacity) }
    }

    /// Whether there is nothing to draw.
    pub fn empty(&self) -> (r: bool)
        ensures
            r == (self.data@.len() == 0),
    {
        self.data.len() == 0
    }

    /// How many renderables the list holds.
    pub fn len(&self) -> (r: usize)
        ensures
            r == self.data@.len(),
    {
        self.data.len()
    }

    /// Every renderable's state is consistent.
    pub open spec fn wf(self) -> bool {
        forall|i: int| 0 <= i < self.data@.len() ==> spec_renderable_wf(#[trigger] self.data@[i])
    }

    /// Advances every renderable by `dt_ms` of real time, in order.
    pub fn pre_render_all(&mut self, dt_ms: u64)
        requires
            old(self).wf(),
        ensures
            final(self).wf(),
            final(self).data@.len() == old(self).data@.len(),
            forall|i: int|
                0 <= i < final(self).data@.len() ==> spec_renderable_ticked(
                    old(self).data@[i],
                    #[trigger] final(self).data@[i],
                    dt_ms,
                ),
    {
        let ghost before = self.data@;
        let mut i: usize = 0;
        while i < self.data.len()
            invariant
                0 <= i <= self.data@.len(),
                self.data@.len() == before.len(),
                forall|j: int| 0 <= j < before.len() ==> spec_renderable_wf(#[trigger] before[j]),
                forall|j: int|
                    i <= j < self.data@.len() ==> #[trigger] self.data@[j] == before[j],
                forall|j: int| 0 <= j < self.data@.len() ==> spec_renderable_wf(#[trigger] self.data@[j]),
                forall|j: int|
                    0 <= j < i ==> spec_renderable_ticked(before[j], #[trigger] self.data@[j], dt_ms),
            decreases self.data@.len() - i,
        {
            let r = &mut self.data[i];
            r.pre_render(dt_ms);
            i += 1;
        }
    }

    /// Rebuilds whatever bind sets per-frame updates left stale, in order;
    /// everything but the stale bind sets is left as it was.
    pub fn refresh_all(&mut self, device: &wgpu::Device)
        requires
            old(self).wf(),
        ensures
            final(self).wf(),
            final(self).data@.len() == old(self).data@.len(),
            forall|i: int|
                0 <= i < final(self).data@.len() ==> spec_renderable_refreshed(
                    old(self).data@[i],
                    #[trigger] final(self).data@[i],
                ),
    {
        let ghost before = self.data@;
        let mut i: usize = 0;
        while i < self.data.len()
            invariant
                0 <= i <= self.data@.len(),
                self.data@.len() == before.len(),
                forall|j: int| 0 <= j < before.len() ==> spec_renderable_wf(#[trigger] before[j]),
                forall|j: int|
                    i <= j < self.data@.len() ==> #[trigger] self.data@[j] == before[j],
                forall|j: int|
                    0 <= j < self.data@.len() ==> spec_renderable_wf(#[trigger] self.data@[j]),
                forall|j: int|
                    0 <= j < i ==> spec_renderable_refreshed(before[j], #[trigger] self.data@[j]),
            decreases self.data@.len() - i,
        {
            let r = &mut self.data[i];
            r.refresh(device);
            i += 1;
        }
    }
}

/// One projected layer together with the bytes of the asset file it names,
/// read by the surrounding application; a layer without an asset carries
/// none.
pub struct LoadedLayer {
    /// The projected layer.
    pub layer: RenderLayer,
    /// The named asset file's contents, where the layer names one.
    pub data: Option<Vec<u8>>,
}

/// The GPU object factories the assembly uses when a layout or pipeline is
/// not cached yet: they compile the kind-specific shaders and describe the
/// fixed-function state. Nothing is assumed about the objects they return;
/// the cache contracts alone guarantee that each is created at most once
/// per label.
pub trait PipelineFactories {
    /// The bind-group layout for texture-like kinds.
    fn texture_layout(&self, device: &wgpu::Device) -> Arc<wgpu::BindGroupLayout>;

    /// The pipeline for texture-like kinds, over the given layout.
    fn texture_pipeline(&self, device: &wgpu::Device, layout: &wgpu::BindGroupLayout) -> Arc<
        wgpu::RenderPipeline,
    >;

    /// The bind-group layout for solid colors.
    fn color_layout(&self, device: &wgpu::Device) -> Arc<wgpu::BindGroupLayout>;

    /// The pipeline for solid colors, over the given layout.
    fn color_pipeline(&self, device: &wgpu::Device, layout: &wgpu::BindGroupLayout) -> Arc<
        wgpu::RenderPipeline,
    >;

    /// The bind-group layout for shader effects.
    fn effect_layout(&self, device: &wgpu::Device) -> Arc<wgpu::BindGroupLayout>;

    /// The pipeline for a shader effect kind, over the given layout.
    fn effect_pipeline(
        &self,
        device: &wgpu::Device,
        layout: &wgpu::BindGroupLayout,
        shader: &ShaderType,
    ) -> Arc<wgpu::RenderPipeline>;

    /// The bind-group layout for particle fields.
    fn particle_layout(&self, device: &wgpu::Device) -> Arc<wgpu::BindGroupLayout>;

    /// The pipeline for particle fields, over the given layout.
    fn particle_pipeline(&self, device: &wgpu::Device, layout: &wgpu::BindGroupLayout) -> Arc<
        wgpu::RenderPipeline,
    >;
}

/// Whether a path names a container that may hold an animation, by its
/// extension folded to lower case.
pub open spec fn spec_path_animated_kind(path: Seq<char>) -> Option<AnimatedKind> {
    if spec_ends_with_ignore_ascii_case(path, ".webp"@) {
        Some(AnimatedKind::Webp)
    } else if spec_ends_with_ignore_ascii_case(path, ".gif"@) {
        Some(AnimatedKind::Gif)
    } else {
        None
    }
}

/// Classifies a path's container by its extension, folded to lower case.
pub fn animated_kind_of_path(path: &str) -> (r: Option<AnimatedKind>)
    ensures
        r == spec_path_animated_kind(path@),
{
    if ends_with_ignore_ascii_case(path, ".webp") {
        Some(AnimatedKind::Webp)
    } else if ends_with_ignore_ascii_case(path, ".gif") {
        Some(AnimatedKind::Gif)
    } else {
        None
    }
}

/// How a built renderable corresponds to the projected layer it came from:
/// the kind matches the layer's classification — an image layer whose path
/// names an animation container becomes an animated texture, any other
/// image a static one — a color renderable carries the parsed color, and an
/// effect renderable carries the parameters the layer's declared values and
/// opacity resolve to.
pub open spec fn spec_renderable_of_layer(r: Renderable, layer: RenderLayer) -> bool {
    match layer.layer_type {
        LayerType::Color { color } => r matches Renderable::Color(m) && m.color
            == crate::renderer::models::color::spec_parse_color(color@),
        LayerType::Image { image_path } => match spec_path_animated_kind(image_path@) {
            Some(_) => r matches Renderable::Animated(m) && m.texture.spec_looping(),
            None => r is Texture,
        },
        LayerType::Particle { image_path, script_path, params } => r matches Renderable::Particle(
            m,
        ) && m.wf(),
        LayerType::Shader { shader_type, image_path, uniforms } => r matches Renderable::Effect(m)
            && m.animated && m.params == crate::renderer::models::effect::spec_effect_params(
            shader_type,
            uniforms.entries@,
            layer.opacity_milli,
        ),
    }
}

/// Whether a loaded layer yields a renderable: a color layer always does;
/// an asset-backed layer does exactly when its bytes were read and decode
/// to something usable — animation frames or a still image with at least
/// one pixel on each side.
pub open spec fn spec_layer_contributes(l: LoadedLayer) -> bool {
    match l.layer.layer_type {
        LayerType::Color { .. } => true,
        LayerType::Image { image_path } => l.data matches Some(d) && (match spec_path_animated_kind(
            image_path@,
        ) {
            Some(kind) => spec_animation_frames(kind, d@) >= 1 || spec_decodes_usable(d@),
            None => spec_decodes_usable(d@),
        }),
        LayerType::Particle { .. } => l.data matches Some(d) && spec_decodes_usable(d@),
        LayerType::Shader { .. } => l.data matches Some(d) && spec_decodes_usable(d@),
    }
}

/// The built renderables come from an order-preserving selection of the
/// loaded layers: `src` names, in increasing order, which layer each
/// renderable was built from, and the selection holds exactly the layers
/// that contribute.
pub open spec fn spec_assembled_from(
    r: Seq<Renderable>,
    loaded: Seq<LoadedLayer>,
    src: Seq<int>,
) -> bool {
    &&& src.len() == r.len()
    &&& forall|k: int| 0 <= k < src.len() ==> 0 <= #[trigger] src[k] < loaded.len()
    &&& forall|a: int, b: int| 0 <= a < b < src.len() ==> src[a] < src[b]
    &&& forall|k: int|
        0 <= k < r.len() ==> spec_renderable_of_layer(#[trigger] r[k], loaded[src[k]].layer)
    &&& forall|j: int|
        0 <= j < loaded.len() ==> (spec_layer_contributes(#[trigger] loaded[j]) <==> exists|k: int|
            0 <= k < src.len() && #[trigger] src[k] == j)
}

impl Pipelines {
    /// Assembles the renderables for a wallpaper's loaded layers, one per
    /// contributing layer in the given painting order: a color layer becomes
    /// a color model, an image layer a static or animated texture by its
    /// container, a shader layer an effect over its image, and a particle
    /// layer a particle field with its declared pool capacity, capped. A
    /// layer whose asset is missing or does not decode, and a shader layer
    /// without an image, contribute nothing.
    pub fn from_loaded<FAC: PipelineFactories>(
        loaded: &Vec<LoadedLayer>,
        device: &wgpu::Device,
        queue: &wgpu::Queue,
        layouts: &mut Manager<wgpu::BindGroupLayout>,
        pipelines: &mut Manager<wgpu::RenderPipeline>,
        factories: &FAC,
    ) -> (r: Pipelines)
        requires
            old(layouts).wf(),
            old(pipelines).wf(),
        ensures
            final(layouts).wf(),
            final(pipelines).wf(),
            r.wf(),
            r.data@.len() <= loaded@.len(),
            exists|src: Seq<int>| #[trigger] spec_assembled_from(r.data@, loaded@, src),
    {
        let mut out = Pipelines::with_capacity(loaded.len());
        let ghost mut src: Seq<int> = Seq::empty();
        let mut i: usize = 0;
        while i < loaded.len()
            invariant
                0 <= i <= loaded@.len(),
                layouts.wf(),
                pipelines.wf(),
                out.wf(),
                out.data@.len() <= i,
                src.len() == out.data@.len(),
                forall|k: int| 0 <= k < src.len() ==> 0 <= #[trigger] src[k] < i,
                forall|a: int, b: int| 0 <= a < b < src.len() ==> src[a] < src[b],
                forall|k: int|
                    0 <= k < out.data@.len() ==> spec_renderable_of_layer(
                        #[trigger] out.data@[k],
                        loaded@[src[k]].layer,
                    ),
                forall|j: int|
                    0 <= j < i ==> (spec_layer_contributes(#[trigger] loaded@[j]) <==> exists|
                        k: int,
                    |
                        0 <= k < src.len() && #[trigger] src[k] == j),
            decreases loaded@.len() - i,
        {
            let ghost src_before = src;
            let mut pushed = false;
            let entry = &loaded[i];
            match &entry.layer.layer_type {
                LayerType::Color { color } => {
                    let builder = ColorModelBuilder::from_hex_color(
                        color.as_str(),
                        entry.layer.name.clone(),
                    );
                    let model = builder.build(
                        device,
                        layouts,
                        pipelines,
                        || factories.color_layout(device),
                        || {
                            let layout = factories.color_layout(device);
                            factories.color_pipeline(device, &layout)
                        },
                    );
                    out.data.push(Renderable::Color(model));
                    pushed = true;
                    proof {
                        src = src.push(i as int);
                    }
                },
                LayerType::Image { image_path } => {
                    match &entry.data {
                        Some(data) => {
                            match animated_kind_of_path(image_path.as_str()) {
                                Some(kind) => {
                                    let builder = AnimatedTextureModelBuilder::new(
                                        image_path.clone(),
                                        entry.layer.name.clone(),
                                    ).looping(true);
                                    let built = builder.build(
                                        device,
                                        queue,
                                        data,
                                        kind,
                                        layouts,
                                        pipelines,
                                        || factories.texture_layout(device),
                                        || {
                                            let layout = factories.texture_layout(device);
                                            factories.texture_pipeline(device, &layout)
                                        },
                                    );
                                    match built {
                                        Some(model) => {
                                            out.data.push(Renderable::Animated(model));
                                            pushed = true;
                                            proof {
                                                src = src.push(i as int);
                                            }
                                        },
                                        None => {},
                                    }
                                },
                                None => {
                                    match decode_image(data) {
                                        Some(img) => {
                                            if 1 <= img.width && img.width
                                                <= crate::gpu::MAX_TEXTURE_DIMENSION && 1
                                                <= img.height && img.height
                                                <= crate::gpu::MAX_TEXTURE_DIMENSION {
                                                let builder = TextureModelBuilder::new(
                                                    img,
                                                    entry.layer.name.clone(),
                                                );
                                                let model = builder.build(
                                                    device,
                                                    queue,
                                                    layouts,
                                                    pipelines,
                                                    || factories.texture_layout(device),
                                                    || {
                                                        let layout = factories.texture_layout(
                                                            device,
                                                        );
                                                        factories.texture_pipeline(device, &layout)
                                                    },
                                                );
                                                out.data.push(Renderable::Texture(model));
                                                pushed = true;
                                                proof {
                                                    src = src.push(i as int);
                                                }
                                            }
                                        },
                                        None => {},
                                    }
                                },
                            }
                        },
                        None => {},
                    }
                },
                LayerType::Particle { image_path: _, script_path, params } => {
                    match &entry.data {
                        Some(data) => {
                            match decode_image(data) {
                                Some(img) => {
                                    if 1 <= img.width && img.width
                                        <= crate::gpu::MAX_TEXTURE_DIMENSION && 1 <= img.height
                                        && img.height <= crate::gpu::MAX_TEXTURE_DIMENSION {
                                        let declared = match params.get("max_particles") {
                                            Some(ParamValue::Int(v)) => *v,
                                            _ => 1000i64,
                                        };
                                        let max_particles: u32 = if declared < 0 {
                                            0
                                        } else if declared > MAX_POOL_CAPACITY as i64 {
                                            MAX_POOL_CAPACITY
                                        } else {
                                            declared as u32
                                        };
                                        let script: Option<String> = match script_path {
                                            Some(t) => Some(t.clone()),
                                            None => None,
                                        };
                                        let builder = ParticleModelBuilder::new(
                                            img,
                                            max_particles,
                                            script,
                                            entry.layer.name.clone(),
                                        );
                                        let model = builder.build(
                                            device,
                                            queue,
                                            layouts,
                                            pipelines,
                                            || factories.particle_layout(device),
                                            || {
                                                let layout = factories.particle_layout(device);
                                                factories.particle_pipeline(device, &layout)
                                            },
                                        );
                                        out.data.push(Renderable::Particle(model));
                                        pushed = true;
                                        proof {
                                            src = src.push(i as int);
                                        }
                                    }
                                },
                                None => {},
                            }
                        },
                        None => {},
                    }
                },
                LayerType::Shader { shader_type, image_path: _, uniforms } => {
                    match &entry.data {
                        Some(data) => {
                            match decode_image(data) {
                                Some(img) => {
                                    if 1 <= img.width && img.width
                                        <= crate::gpu::MAX_TEXTURE_DIMENSION && 1 <= img.height
                                        && img.height <= crate::gpu::MAX_TEXTURE_DIMENSION {
                                        let builder = EffectModelBuilder::new(
                                            img,
                                            shader_type.clone(),
                                            entry.layer.name.clone(),
                                        ).with_params(
                                            uniforms.clone(),
                                        ).with_opacity(entry.layer.opacity_milli);
                                        let shader = shader_type.clone();
                                        let model = builder.build(
                                            device,
                                            queue,
                                            layouts,
                                            pipelines,
                                            || factories.effect_layout(device),
                                            || {
                                                let layout = factories.effect_layout(device);
                                                factories.effect_pipeline(device, &layout, &shader)
                                            },
                                        );
                                        out.data.push(Renderable::Effect(model));
                                        pushed = true;
                                        proof {
                                            src = src.push(i as int);
                                        }
                                    }
                                },
                                None => {},
                            }
                        },
                        None => {},
                    }
                },
            }
            proof {
                assert(spec_layer_contributes(loaded@[i as int]) == pushed);
                if pushed {
                    assert(src[src.len() - 1] == i as int);
                }
                assert forall|j: int|
                    0 <= j < i + 1 implies (spec_layer_contributes(#[trigger] loaded@[j]) <==> exists|
                    k: int,
                |
                    0 <= k < src.len() && #[trigger] src[k] == j) by {
                    if j < i {
                        if spec_layer_contributes(loaded@[j]) {
                            let w = choose|k: int|
                                0 <= k < src_before.len() && #[trigger] src_before[k] == j;
                            assert(src[w] == j);
                        }
                        if exists|k: int| 0 <= k < src.len() && #[trigger] src[k] == j {
                            let w = choose|k: int| 0 <= k < src.len() && #[trigger] src[k] == j;
                            assert(w < src_before.len());
                            assert(src_before[w] == j);
                        }
                    } else {
                        if pushed {
                            assert(src[src.len() - 1] == j);
                        } else {
                            if exists|k: int| 0 <= k < src.len() && #[trigger] src[k] == j {
                                let w = choose|k: int|
                                    0 <= k < src.len() && #[trigger] src[k] == j;
                                assert(src_before[w] < i as int);
                            }
                        }
                    }
                }
            }
            i += 1;
        }
        proof {
            assert(spec_assembled_from(out.data@, loaded@, src));
        }
        out
    }
}

} // verus!
