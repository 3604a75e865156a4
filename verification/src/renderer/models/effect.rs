//! The shader effect render model: an image-based effect with a
//! per-instance parameter buffer. The parameters are seeded from the layer's
//! declared values, each intensity scaled by the layer's opacity so opacity
//! acts as an effect-strength multiplier, and a time value advances on every
//! redraw tick with a periodic wraparound.
//!
//! Parameter values are carried in thousandths; the surrounding application
//! encodes them as floats into the GPU buffer.

use std::sync::Arc;
use vstd::arithmetic::div_mod::lemma_mod_multiples_basic;
use vstd::prelude::*;

use crate::asset::image::{ImageTexture, RawImage};
use crate::decode::{dynamic_to_raw, resize_exact};
use crate::gpu;
use crate::manifest::{spec_param_get, ParamEntry, ParamMap, ParamValue, ShaderType};
use crate::renderer::manager::Manager;

verus! {

/// The time value wraps after a thousand seconds to avoid precision loss in
/// the float it is encoded into.
pub open spec fn spec_time_wrap_ms() -> u64 {
    1_000_000
}

/// The largest whole number whose thousandfold still fits the value range.
pub open spec fn spec_milli_limit() -> i64 {
    9_223_372_036_854_775
}

/// A whole-number parameter scaled to thousandths, saturating at the range
/// ends.
pub open spec fn spec_to_milli(v: i64) -> i64 {
    if v > spec_milli_limit() {
        i64::MAX
    } else if v < -spec_milli_limit() {
        i64::MIN
    } else {
        (v * 1000) as i64
    }
}

/// The declared parameter under `name` in thousandths: a whole number is
/// scaled up, a fractional value is taken as is, and a missing or
/// wrongly-typed value falls back to the default.
pub open spec fn spec_param_milli(s: Seq<ParamEntry>, name: Seq<char>, default: i64) -> i64 {
    match spec_param_get(s, name) {
        Some(ParamValue::Int(v)) => spec_to_milli(v),
        Some(ParamValue::Milli(v)) => v,
        _ => default,
    }
}

/// A value in thousandths scaled by an opacity in thousandths, rounding
/// toward zero.
pub open spec fn spec_scale_milli(v: i64, opacity_milli: u32) -> i64 {
    if v >= 0 {
        ((v * opacity_milli) / 1000) as i64
    } else {
        (-((-v * opacity_milli) / 1000)) as i64
    }
}

/// The initial contents of an effect's parameter buffer, in thousandths:
/// two shader-specific values, the effect strength, and a time that starts
/// at zero. The strength is the layer's opacity, and the first value is
/// scaled by it.
#[derive(Debug, Clone, Copy, PartialEq, Eq, Structural)]
pub struct EffectParams {
    /// First shader value: wave amplitude, glitch intensity, or blur radius,
    /// already scaled by the opacity.
    pub a_milli: i64,
    /// Second shader value: the frequency where the shader has one, already
    /// scaled by the opacity.
    pub b_milli: i64,
    /// The effect strength: the layer's opacity.
    pub strength_milli: i64,
}

/// The parameters an effect starts with, per shader kind, over the layer's
/// declared values and its opacity (clamped to full); every declared value
/// is scaled by the opacity, so opacity acts as an effect-strength
/// multiplier. Wave: amplitude (default 0.2) and frequency (default 0.5).
/// Glitch: intensity (default 0.5) and frequency (default 0.3). Gaussian
/// blur: radius (default 3.5). Anything else: zeros with the opacity as
/// strength.
pub open spec fn spec_effect_params(
    shader: ShaderType,
    s: Seq<ParamEntry>,
    opacity_milli: u32,
) -> EffectParams {
    let op = if opacity_milli > 1000 {
        1000u32
    } else {
        opacity_milli
    };
    match shader {
        ShaderType::Wave => EffectParams {
            a_milli: spec_scale_milli(spec_param_milli(s, "amplitude"@, 200), op),
            b_milli: spec_scale_milli(spec_param_milli(s, "frequency"@, 500), op),
            strength_milli: op as i64,
        },
        ShaderType::Glitch => EffectParams {
            a_milli: spec_scale_milli(spec_param_milli(s, "intensity"@, 500), op),
            b_milli: spec_scale_milli(spec_param_milli(s, "frequency"@, 300), op),
            strength_milli: op as i64,
        },
        ShaderType::Gaussian => EffectParams {
            a_milli: spec_scale_milli(spec_param_milli(s, "radius"@, 3500), op),
            b_milli: 0,
            strength_milli: op as i64,
        },
        ShaderType::Custom(_) => EffectParams {
            a_milli: 0,
            b_milli: 0,
            strength_milli: op as i64,
        },
    }
}

/// Reads the declared parameter under `name` in thousandths.
pub fn param_milli(params: &ParamMap, name: &str, default: i64) -> (r: i64)
    ensures
        r == spec_param_milli(params.entries@, name@, default),
{
    match params.get(name) {
        Some(v) => match v {
            ParamValue::Int(w) => {
                let w = *w;
                if w > 9_223_372_036_854_775i64 {
                    i64::MAX
                } else if w < -9_223_372_036_854_775i64 {
                    i64::MIN
                } else {
                    w * 1000
                }
            },
            ParamValue::Milli(w) => *w,
            _ => default,
        },
        None => default,
    }
}

/// Scales a value in thousandths by an opacity in thousandths.
fn scale_milli(v: i64, opacity_milli: u32) -> (r: i64)
    requires
        opacity_milli <= 1000,
    ensures
        r == spec_scale_milli(v, opacity_milli),
{
    if v >= 0 {
        proof {
            assert((v as int) * (opacity_milli as int) <= (i64::MAX as int) * 1000)
                by (nonlinear_arith)
                requires
                    0 <= v <= i64::MAX,
                    0 <= opacity_milli <= 1000,
            ;
            assert((v as int) * (opacity_milli as int) >= 0) by (nonlinear_arith)
                requires
                    v >= 0,
                    opacity_milli >= 0,
            ;
        }
        let p: i128 = (v as i128) * (opacity_milli as i128);
        proof {
            assert(p / 1000 <= i64::MAX);
        }
        (p / 1000) as i64
    } else {
        let n: i128 = -(v as i128);
        proof {
            assert(n * (opacity_milli as int) <= (9_223_372_036_854_775_808i128 as int) * 1000)
                by (nonlinear_arith)
                requires
                    0 <= n <= 9_223_372_036_854_775_808i128,
                    0 <= opacity_milli <= 1000,
            ;
            assert(n * (opacity_milli as int) >= 0) by (nonlinear_arith)
                requires
                    n >= 0,
                    opacity_milli >= 0,
            ;
        }
        let p: i128 = n * (opacity_milli as i128);
        proof {
            assert(p / 1000 <= 9_223_372_036_854_775_808int);
        }
        (-(p / 1000)) as i64
    }
}

/// Scales a byte value by `num / den`, which never exceeds one.
fn scale_u8(v: u8, num: u32, den: u32) -> (r: u8)
    requires
        1 <= den,
        num <= den,
    ensures
        r as int == (v as int * num as int) / (den as int),
{
    proof {
        assert(v as int * num as int <= 255 * den as int) by (nonlinear_arith)
            requires
                0 <= v <= 255,
                0 <= num <= den,
        ;
        assert(v as int * num as int >= 0) by (nonlinear_arith)
            requires
                v >= 0,
                num >= 0,
        ;
        assert((v as int * num as int) / (den as int) <= (255 * den as int) / (den as int))
            by (nonlinear_arith)
            requires
                den >= 1,
                v as int * num as int <= 255 * den as int,
        ;
        assert((255 * den as int) / (den as int) == 255) by (nonlinear_arith)
            requires
                den >= 1,
        ;
    }
    let p: u64 = (v as u64) * (num as u64);
    (p / (den as u64)) as u8
}

/// Computes the parameters an effect starts with.
pub fn effect_params(shader: &ShaderType, params: &ParamMap, opacity_milli: u32) -> (r:
    EffectParams)
    ensures
        r == spec_effect_params(*shader, params.entries@, opacity_milli),
{
    let op: u32 = if opacity_milli > 1000 {
        1000
    } else {
        opacity_milli
    };
    match shader {
        ShaderType::Wave => EffectParams {
            a_milli: scale_milli(param_milli(params, "amplitude", 200), op),
            b_milli: scale_milli(param_milli(params, "frequency", 500), op),
            strength_milli: op as i64,
        },
        ShaderType::Glitch => EffectParams {
            a_milli: scale_milli(param_milli(params, "intensity", 500), op),
            b_milli: scale_milli(param_milli(params, "frequency", 300), op),
            strength_milli: op as i64,
        },
        ShaderType::Gaussian => EffectParams {
            a_milli: scale_milli(param_milli(params, "radius", 3500), op),
            b_milli: 0,
            strength_milli: op as i64,
        },
        ShaderType::Custom(_) => EffectParams { a_milli: 0, b_milli: 0, strength_milli: op as i64 },
    }
}

/// A renderable shader effect: its mask texture, the shared pipeline, the
/// bind set, the resolved parameters, and the running time value.
pub struct EffectModel {
    /// The texture the shader samples.
    pub texture: ImageTexture,
    /// The shared compiled pipeline.
    pub render_pipeline: Arc<wgpu::RenderPipeline>,
    /// The bind set referencing the texture and the parameter buffer.
    pub bind_group: Arc<wgpu::BindGroup>,
    /// The resolved initial parameters, in thousandths.
    pub params: EffectParams,
    /// The running animation time in milliseconds.
    pub current_time_ms: u64,
    /// Whether this effect receives time updates.
    pub animated: bool,
    /// The parameter buffer the application encodes values into, when the
    /// effect is animated.
    pub params_buffer: Option<wgpu::Buffer>,
}

impl EffectModel {
    /// A static effect: no time updates, no parameter buffer to refresh.
    pub fn new(
        texture: ImageTexture,
        render_pipeline: Arc<wgpu::RenderPipeline>,
        bind_group: Arc<wgpu::BindGroup>,
        params: EffectParams,
    ) -> (r: Self)
        ensures
            r.params == params,
            r.render_pipeline == render_pipeline,
            r.bind_group == bind_group,
            !r.animated,
            r.current_time_ms == 0,
            r.params_buffer is None,
    {
        EffectModel {
            texture,
            render_pipeline,
            bind_group,
            params,
            current_time_ms: 0,
            animated: false,
            params_buffer: None,
        }
    }

    /// An animated effect that advances a time value into its parameter
    /// buffer.
    pub fn new_animated(
        texture: ImageTexture,
        render_pipeline: Arc<wgpu::RenderPipeline>,
        bind_group: Arc<wgpu::BindGroup>,
        params: EffectParams,
        params_buffer: wgpu::Buffer,
    ) -> (r: Self)
        ensures
            r.params == params,
            r.render_pipeline == render_pipeline,
            r.bind_group == bind_group,
            r.animated,
            r.current_time_ms == 0,
            r.params_buffer is Some,
    {
        EffectModel {
            texture,
            render_pipeline,
            bind_group,
            params,
            current_time_ms: 0,
            animated: true,
            params_buffer: Some(params_buffer),
        }
    }

    /// The shared pipeline this model draws with.
    pub fn pipeline(&self) -> &Arc<wgpu::RenderPipeline> {
        &self.render_pipeline
    }

    /// The bind set this model draws with.
    pub fn bindgroup(&self) -> &Arc<wgpu::BindGroup> {
        &self.bind_group
    }

    /// Whether this effect receives time updates.
    pub fn is_animated(&self) -> (r: bool)
        ensures
            r == self.animated,
    {
        self.animated
    }

    /// Advances the effect's time value by `dt_ms`, wrapping past a thousand
    /// seconds so the encoded float keeps its precision over long uptimes.
    /// Reports whether the caller must re-encode the parameter buffer; a
    /// static effect is left untouched.
    pub fn update_time(&mut self, dt_ms: u64) -> (updated: bool)
        ensures
            !(old(self).animated && old(self).params_buffer is Some) ==> (*final(self) == *old(
                self,
            ) && !updated),
            (old(self).animated && old(self).params_buffer is Some) ==> {
                let advanced = crate::asset::animated::sat_add_u64(
                    old(self).current_time_ms,
                    dt_ms,
                );
                &&& updated
                &&& final(self).current_time_ms == (if advanced > spec_time_wrap_ms() {
                    (advanced - spec_time_wrap_ms()) as u64
                } else {
                    advanced
                })
                &&& final(self).params == old(self).params
                &&& final(self).animated
                &&& final(self).params_buffer is Some
            },
    {
        if !self.animated || self.params_buffer.is_none() {
            return false;
        }
        let advanced = self.current_time_ms.saturating_add(dt_ms);
        self.current_time_ms = if advanced > 1_000_000 {
            advanced - 1_000_000
        } else {
            advanced
        };
        true
    }
}

/// The grayscale weight of a mask pixel, used as its alpha contribution.
pub open spec fn spec_luma(r: u8, g: u8, b: u8) -> u8 {
    ((299 * r + 587 * g + 114 * b) / 1000) as u8
}

/// Builds a shader effect render model.
pub struct EffectModelBuilder {
    /// The image the effect runs over, used as both color and mask.
    pub image: RawImage,
    /// An optional separate alpha mask; its grayscale becomes the alpha.
    pub mask: Option<image::DynamicImage>,
    /// A debugging label for the GPU objects.
    pub label: String,
    /// Whether color channels are pre-multiplied by the final alpha.
    pub premultiply_alpha: bool,
    /// The layer's declared effect parameters.
    pub params: ParamMap,
    /// The layer's opacity in thousandths.
    pub opacity_milli: u32,
    /// Which shader the effect runs.
    pub shader: ShaderType,
}

impl EffectModelBuilder {
    /// A builder over the given image and shader kind, fully opaque and
    /// pre-multiplying by default.
    pub fn new(image: RawImage, shader: ShaderType, label: String) -> (r: Self)
        ensures
            r.image == image,
            r.label@ == label@,
            r.premultiply_alpha,
            r.params.entries@.len() == 0,
            r.opacity_milli == 1000,
            r.shader == shader,
            r.mask is None,
    {
        EffectModelBuilder {
            image,
            mask: None,
            label,
            premultiply_alpha: true,
            params: ParamMap { entries: Vec::new() },
            opacity_milli: 1000,
            shader,
        }
    }

    /// Sets the layer opacity, in thousandths.
    pub fn with_opacity(self, opacity_milli: u32) -> (r: Self)
        ensures
            r == (Self { opacity_milli, ..self }),
    {
        Self { opacity_milli, ..self }
    }

    /// Sets the declared effect parameters.
    pub fn with_params(self, params: ParamMap) -> (r: Self)
        ensures
            r == (Self { params, ..self }),
    {
        Self { params, ..self }
    }

    /// Uses a separate image as the alpha mask.
    pub fn with_mask(self, mask: image::DynamicImage) -> (r: Self)
        ensures
            r == (Self { mask: Some(mask), ..self }),
    {
        Self { mask: Some(mask), ..self }
    }

    /// Sets whether color channels are pre-multiplied by the final alpha.
    pub fn with_premultiply_alpha(self, premultiply: bool) -> (r: Self)
        ensures
            r == (Self { premultiply_alpha: premultiply, ..self }),
    {
        Self { premultiply_alpha: premultiply, ..self }
    }

    /// Applies the mask, the layer opacity and optional pre-multiplication
    /// to the decoded pixels. Without a mask, each pixel's alpha becomes its
    /// original alpha scaled by the opacity; with one, the mask's grayscale
    /// bounds the alpha first. Pre-multiplication then scales the color
    /// channels by the final alpha.
    fn process_image(raw: &RawImage, mask: &Option<RawImage>, opacity_milli: u32, premultiply_alpha: bool) -> (r: RawImage)
        requires
            raw.wf(),
            mask matches Some(m) ==> m.wf() && m.width == raw.width && m.height == raw.height,
            opacity_milli <= 1000,
        ensures
            r.wf(),
            r.width == raw.width,
            r.height == raw.height,
    {
        let mut out: Vec<u8> = Vec::with_capacity(raw.rgba.len());
        let total: usize = raw.rgba.len() / 4;
        let mut p: usize = 0;
        proof {
            let pixels = (raw.width as int) * (raw.height as int);
            assert(pixels * 4 == 4 * (raw.width as int) * (raw.height as int)) by (nonlinear_arith)
                requires
                    pixels == (raw.width as int) * (raw.height as int),
            ;
            lemma_mod_multiples_basic(pixels, 4);
            assert(raw.rgba@.len() % 4 == 0);
            assert(4 * (total as int) == raw.rgba@.len());
        }
        while p < total
            invariant
                raw.wf(),
                mask matches Some(m) ==> m.wf() && m.width == raw.width && m.height == raw.height,
                opacity_milli <= 1000,
                total == raw.rgba@.len() / 4,
                4 * total == raw.rgba@.len(),
                raw.rgba@.len() <= usize::MAX,
                0 <= p <= total,
                out@.len() == 4 * p,
            decreases total - p,
        {
            let base = 4 * p;
            let red = raw.rgba[base];
            let green = raw.rgba[base + 1];
            let blue = raw.rgba[base + 2];
            let orig_alpha = raw.rgba[base + 3];
            let masked_alpha: u8 = match mask {
                Some(m) => {
                    let mr = m.rgba[base] as u32;
                    let mg = m.rgba[base + 1] as u32;
                    let mb = m.rgba[base + 2] as u32;
                    let luma = ((299 * mr + 587 * mg + 114 * mb) / 1000) as u8;
                    if luma < orig_alpha {
                        luma
                    } else {
                        orig_alpha
                    }
                },
                None => orig_alpha,
            };
            let alpha = scale_u8(masked_alpha, opacity_milli, 1000);
            if premultiply_alpha {
                out.push(scale_u8(red, alpha as u32, 255));
                out.push(scale_u8(green, alpha as u32, 255));
                out.push(scale_u8(blue, alpha as u32, 255));
            } else {
                out.push(red);
                out.push(green);
                out.push(blue);
            }
            out.push(alpha);
            p += 1;
        }
        RawImage { width: raw.width, height: raw.height, rgba: out }
    }

    /// Builds the model: processes and uploads the image, fetches or creates
    /// the shared layout and pipeline under their stable labels, allocates
    /// the parameter buffer and bind set, and resolves the initial
    /// parameters from the declared values and opacity. Every shader effect
    /// receives time updates. The caller encodes the parameter values into
    /// the returned model's buffer.
    pub fn build<F: FnOnce() -> Arc<wgpu::BindGroupLayout>, G: FnOnce() -> Arc<
        wgpu::RenderPipeline,
    >>(
        &self,
        device: &wgpu::Device,
        queue: &wgpu::Queue,
        layouts: &mut Manager<wgpu::BindGroupLayout>,
        pipelines: &mut Manager<wgpu::RenderPipeline>,
        layout_factory: F,
        pipeline_factory: G,
    ) -> (r: EffectModel)
        requires
            old(layouts).wf(),
            old(pipelines).wf(),
            self.image.wf(),
            1 <= self.image.width <= crate::gpu::MAX_TEXTURE_DIMENSION,
            1 <= self.image.height <= crate::gpu::MAX_TEXTURE_DIMENSION,
            call_requires(layout_factory, ()),
            call_requires(pipeline_factory, ()),
        ensures
            final(layouts).wf(),
            final(pipelines).wf(),
            r.params == spec_effect_params(self.shader, self.params.entries@, self.opacity_milli),
            r.animated,
            r.current_time_ms == 0,
            r.params_buffer is Some,
            final(layouts).spec_has("effect_bind_group_layout"@),
            final(pipelines).spec_has("effect_render_pipeline"@),
            final(pipelines).spec_get("effect_render_pipeline"@) == Some(r.render_pipeline),
            old(layouts).spec_has("effect_bind_group_layout"@) ==> *final(layouts) == *old(
                layouts,
            ),
            old(pipelines).spec_has("effect_render_pipeline"@) ==> *final(pipelines) == *old(
                pipelines,
            ),
            forall|k: Seq<char>|
                k != "effect_bind_group_layout"@ ==> final(layouts).spec_get(k) == old(
                    layouts,
                ).spec_get(k),
            forall|k: Seq<char>|
                k != "effect_render_pipeline"@ ==> final(pipelines).spec_get(k) == old(
                    pipelines,
                ).spec_get(k),
    {
        let raw = &self.image;
        let mask_raw: Option<RawImage> = match &self.mask {
            Some(m) => Some(dynamic_to_raw(&resize_exact(m, raw.width, raw.height))),
            None => None,
        };
        let effective_opacity: u32 = if self.opacity_milli > 1000 {
            1000
        } else {
            self.opacity_milli
        };
        let processed = match &mask_raw {
            Some(m) => {
                if m.width == raw.width && m.height == raw.height {
                    Self::process_image(raw, &mask_raw, effective_opacity, self.premultiply_alpha)
                } else {
                    Self::process_image(raw, &None, effective_opacity, self.premultiply_alpha)
                }
            },
            None => Self::process_image(raw, &None, effective_opacity, self.premultiply_alpha),
        };
        let texture = ImageTexture::from_image(device, queue, &processed, self.label.as_str());
        let layout = layouts.get_or_init("effect_bind_group_layout", layout_factory);
        let pipeline = pipelines.get_or_init("effect_render_pipeline", pipeline_factory);
        let params_buffer = gpu::create_uniform_buffer(device, "Effect Parameters Buffer", 16);
        let bind_group = Arc::new(
            gpu::create_texture_buffer_bind_group(
                device,
                &layout,
                &texture.view,
                &texture.sampler,
                &params_buffer,
                self.label.as_str(),
            ),
        );
        let params = effect_params(&self.shader, &self.params, self.opacity_milli);
        EffectModel::new_animated(texture, pipeline, bind_group, params, params_buffer)
    }
}

} // verus!
