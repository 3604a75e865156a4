//! A loaded wallpaper: its manifest and directory, and the projection of its
//! layers into renderable kinds in painting order. Reading manifests and
//! scanning directories from disk is the loading collaborator's job.

use vstd::prelude::*;

use crate::manifest::{
    spec_effect_entry_pred, spec_is_stable_z_order, spec_layer_selection, spec_layer_values,
    spec_param_get, stable_z_order, EffectType, Layer, LayerContent, ParamMap, ParamValue,
    ScaleMode, ShaderType, WallpaperManifest,
};

verus! {

/// Joining a base directory and a relative path with one separator.
pub open spec fn spec_join_path(base: Seq<char>, rel: Seq<char>) -> Seq<char> {
    base + "/"@ + rel
}

/// Joins a base directory and a relative path with one separator.
pub fn join_path(base: &str, rel: &str) -> (r: String)
    ensures
        r@ == spec_join_path(base@, rel@),
{
    let a: String = base.to_owned();
    let b = a.concat("/");
    b.concat(rel)
}

/// A loaded wallpaper: the manifest and the absolute directory it lives in.
pub struct Wallpaper {
    /// The manifest data.
    pub manifest: WallpaperManifest,
    /// The absolute path of the wallpaper directory.
    pub path: String,
}

/// The renderable kinds a layer can project to.
pub enum LayerType {
    /// A solid color layer.
    Color {
        /// The color as a CSS-style string.
        color: String,
    },
    /// A static or animated image layer.
    Image {
        /// Absolute path of the image file.
        image_path: String,
    },
    /// A particle field layer.
    Particle {
        /// Absolute path of the particle image, empty when none was given.
        image_path: String,
        /// Absolute path of the behavior script, if one was given.
        script_path: Option<String>,
        /// The layer's free-form parameters.
        params: ParamMap,
    },
    /// A shader effect layer.
    Shader {
        /// Which shader to run.
        shader_type: ShaderType,
        /// Absolute path of the image the shader samples, if any.
        image_path: Option<String>,
        /// The shader's uniform parameters.
        uniforms: ParamMap,
    },
}

/// One layer of a wallpaper projected for rendering.
pub struct RenderLayer {
    /// Name of the layer.
    pub name: String,
    /// Stacking position; higher is painted on top.
    pub z_index: i32,
    /// Opacity in thousandths.
    pub opacity_milli: u32,
    /// The renderable kind with its resolved inputs.
    pub layer_type: LayerType,
}

/// How a manifest layer projects to a render layer rooted at `base`: the
/// name, z-index and opacity carry over; the content and effect classify
/// into exactly one renderable kind, with asset paths resolved under `base`.
pub open spec fn spec_is_render_of(r: RenderLayer, layer: Layer, base: Seq<char>) -> bool {
    &&& r.name@ == layer.name@
    &&& r.z_index == layer.z_index
    &&& r.opacity_milli == layer.opacity_milli
    &&& match layer.effect_type {
        Some(EffectType::Particles) => {
            &&& r.layer_type matches LayerType::Particle { image_path, script_path, params }
            &&& params.entries@ == layer.params.entries@
            &&& (match layer.content {
                LayerContent::Image(p) => image_path@ == spec_join_path(base, p@),
                _ => image_path@ == Seq::<char>::empty(),
            })
            &&& (match spec_param_get(layer.params.entries@, "script"@) {
                Some(ParamValue::Text(s)) => script_path matches Some(sp) && sp@ == spec_join_path(
                    base,
                    s@,
                ),
                _ => script_path is None,
            })
        },
        Some(EffectType::Shader(st)) => {
            &&& r.layer_type matches LayerType::Shader { shader_type, image_path, uniforms }
            &&& shader_type == st
            &&& uniforms.entries@ == layer.params.entries@
            &&& (match layer.content {
                LayerContent::Image(p) => image_path matches Some(ip) && ip@ == spec_join_path(
                    base,
                    p@,
                ),
                _ => image_path is None,
            })
        },
        _ => {
            match layer.content {
                LayerContent::Color(c) => r.layer_type matches LayerType::Color { color } && color@
                    == c@,
                LayerContent::Image(p) => r.layer_type matches LayerType::Image { image_path }
                    && image_path@ == spec_join_path(base, p@),
                LayerContent::Empty => r.layer_type matches LayerType::Color { color } && color@
                    == "transparent"@,
            }
        },
    }
}

impl RenderLayer {
    /// Projects one manifest layer into its renderable kind, resolving asset
    /// paths under `base_path`. A layer with no content and no effect
    /// becomes a transparent color layer, so it still takes its place in the
    /// painting order.
    pub fn from_manifest_layer(layer: &Layer, base_path: &str) -> (r: Self)
        ensures
            spec_is_render_of(r, *layer, base_path@),
    {
        let layer_type: LayerType = match &layer.effect_type {
            Some(EffectType::Particles) => {
                let image_path: String = match &layer.content {
                    LayerContent::Image(p) => join_path(base_path, p.as_str()),
                    _ => String::new(),
                };
                let script_path: Option<String> = match layer.params.get("script") {
                    Some(ParamValue::Text(s)) => Some(join_path(base_path, s.as_str())),
                    _ => None,
                };
                LayerType::Particle { image_path, script_path, params: layer.params.clone() }
            },
            Some(EffectType::Shader(st)) => {
                let image_path: Option<String> = match &layer.content {
                    LayerContent::Image(p) => Some(join_path(base_path, p.as_str())),
                    _ => None,
                };
                LayerType::Shader {
                    shader_type: st.clone(),
                    image_path,
                    uniforms: layer.params.clone(),
                }
            },
            _ => {
                match &layer.content {
                    LayerContent::Color(c) => LayerType::Color { color: c.clone() },
                    LayerContent::Image(p) => LayerType::Image {
                        image_path: join_path(base_path, p.as_str()),
                    },
                    LayerContent::Empty => LayerType::Color { color: "transparent".to_owned() },
                }
            },
        };
        RenderLayer {
            name: layer.name.clone(),
            z_index: layer.z_index,
            opacity_milli: layer.opacity_milli,
            layer_type,
        }
    }
}

impl Wallpaper {
    /// The absolute path of an asset inside the wallpaper directory.
    pub fn asset_path(&self, relative_path: &str) -> (r: String)
        ensures
            r@ == spec_join_path(self.path@, relative_path@),
    {
        join_path(self.path.as_str(), relative_path)
    }

    /// The wallpaper's name.
    pub fn name(&self) -> (r: &str)
        ensures
            r@ == self.manifest.name@,
    {
        self.manifest.name.as_str()
    }

    /// The wallpaper's author.
    pub fn author(&self) -> (r: &str)
        ensures
            r@ == self.manifest.author@,
    {
        self.manifest.author.as_str()
    }

    /// The wallpaper's version string.
    pub fn version(&self) -> (r: &str)
        ensures
            r@ == self.manifest.version@,
    {
        self.manifest.version.as_str()
    }

    /// The wallpaper's description.
    pub fn description(&self) -> (r: &str)
        ensures
            r@ == self.manifest.description@,
    {
        self.manifest.description.as_str()
    }

    /// The declared framerate: negative for compositor-driven pacing, zero
    /// for a static wallpaper, positive for an explicit rate.
    pub fn framerate(&self) -> (r: i32)
        ensures
            r == self.manifest.framerate,
    {
        self.manifest.framerate
    }

    /// The declared tickrate, with the same special values.
    pub fn tickrate(&self) -> (r: i32)
        ensures
            r == self.manifest.tickrate,
    {
        self.manifest.get_tickrate()
    }

    /// How background images are scaled.
    pub fn scale_mode(&self) -> (r: &ScaleMode)
        ensures
            *r == self.manifest.scale_mode,
    {
        &self.manifest.scale_mode
    }

    /// The layers in manifest order.
    pub fn layers(&self) -> (r: &Vec<Layer>)
        ensures
            r@ == self.manifest.layers@,
    {
        &self.manifest.layers
    }

    /// The layer at `index`, if there is one.
    pub fn layer(&self, index: usize) -> (r: Option<&Layer>)
        ensures
            index < self.manifest.layers@.len() ==> (r matches Some(l) && *l
                == self.manifest.layers@[index as int]),
            index >= self.manifest.layers@.len() ==> r is None,
    {
        if index < self.manifest.layers.len() {
            Some(&self.manifest.layers[index])
        } else {
            None
        }
    }

    /// The first layer with the given name, if any.
    pub fn layer_by_name(&self, name: &str) -> (r: Option<&Layer>)
        ensures
            r matches Some(l) ==> l.name@ == name@,
    {
        self.manifest.get_layer_by_name(name)
    }

    /// The layers that carry an effect entry: exactly those, each once, in
    /// manifest order.
    pub fn effect_layers(&self) -> (r: Vec<&Layer>)
        ensures
            forall|i: int| 0 <= i < r@.len() ==> (#[trigger] r@[i]).effect_type is Some,
            exists|idx: Seq<int>|
                #[trigger] spec_layer_selection(
                    spec_layer_values(r@),
                    self.manifest.layers@,
                    idx,
                    spec_effect_entry_pred(),
                ),
    {
        let ghost pred = spec_effect_entry_pred();
        let mut out: Vec<&Layer> = Vec::new();
        let ghost mut idx: Seq<int> = Seq::empty();
        let mut i: usize = 0;
        while i < self.manifest.layers.len()
            invariant
                0 <= i <= self.manifest.layers@.len(),
                pred == spec_effect_entry_pred(),
                idx.len() == out@.len(),
                forall|k: int| 0 <= k < idx.len() ==> 0 <= #[trigger] idx[k] < i,
                forall|a: int, b: int| 0 <= a < b < idx.len() ==> idx[a] < idx[b],
                forall|k: int|
                    0 <= k < out@.len() ==> *(#[trigger] out@[k]) == self.manifest.layers@[idx[k]],
                forall|j: int|
                    0 <= j < i ==> (pred(#[trigger] self.manifest.layers@[j]) <==> exists|k: int|
                        0 <= k < idx.len() && #[trigger] idx[k] == j),
                forall|j: int| 0 <= j < out@.len() ==> (#[trigger] out@[j]).effect_type is Some,
            decreases self.manifest.layers@.len() - i,
        {
            let ghost idx_before = idx;
            let mut pushed = false;
            if self.manifest.layers[i].effect_type.is_some() {
                out.push(&self.manifest.layers[i]);
                pushed = true;
                proof {
                    idx = idx.push(i as int);
                }
            }
            proof {
                assert(pred(self.manifest.layers@[i as int]) == pushed);
                if pushed {
                    assert(idx[idx.len() - 1] == i as int);
                }
                assert forall|j: int|
                    0 <= j < i + 1 implies (pred(#[trigger] self.manifest.layers@[j]) <==> exists|
                    k: int,
                |
                    0 <= k < idx.len() && #[trigger] idx[k] == j) by {
                    if j < i {
                        if pred(self.manifest.layers@[j]) {
                            let w = choose|k: int|
                                0 <= k < idx_before.len() && #[trigger] idx_before[k] == j;
                            assert(idx[w] == j);
                        }
                        if exists|k: int| 0 <= k < idx.len() && #[trigger] idx[k] == j {
                            let w = choose|k: int| 0 <= k < idx.len() && #[trigger] idx[k] == j;
                            assert(w < idx_before.len());
                            assert(idx_before[w] == j);
                        }
                    } else {
                        if pushed {
                            assert(idx[idx.len() - 1] == j);
                        } else {
                            if exists|k: int| 0 <= k < idx.len() && #[trigger] idx[k] == j {
                                let w = choose|k: int|
                                    0 <= k < idx.len() && #[trigger] idx[k] == j;
                                assert(idx_before[w] < i as int);
                            }
                        }
                    }
                }
            }
            i += 1;
        }
        proof {
            let vals = spec_layer_values(out@);
            assert forall|k: int| 0 <= k < vals.len() implies #[trigger] vals[k]
                == self.manifest.layers@[idx[k]] by {
                assert(vals[k] == *out@[k]);
            }
            assert(spec_layer_selection(vals, self.manifest.layers@, idx, pred));
        }
        out
    }

    /// Projects every layer for rendering, in painting order: ascending by
    /// z-index, ties kept in manifest order, asset paths resolved under the
    /// wallpaper directory.
    pub fn get_layers(&self) -> (r: Vec<RenderLayer>)
        ensures
            exists|ord: Seq<usize>|
                #[trigger] spec_is_stable_z_order(ord, self.manifest.layers@) && r@.len()
                    == ord.len() && forall|i: int|
                    0 <= i < r@.len() ==> spec_is_render_of(
                        #[trigger] r@[i],
                        self.manifest.layers@[ord[i] as int],
                        self.path@,
                    ),
    {
        let order = stable_z_order(&self.manifest.layers);
        let mut r: Vec<RenderLayer> = Vec::with_capacity(order.len());
        let mut i: usize = 0;
        while i < order.len()
            invariant
                0 <= i <= order@.len(),
                r@.len() == i,
                spec_is_stable_z_order(order@, self.manifest.layers@),
                forall|j: int|
                    0 <= j < i ==> spec_is_render_of(
                        #[trigger] r@[j],
                        self.manifest.layers@[order@[j] as int],
                        self.path@,
                    ),
            decreases order@.len() - i,
        {
            let layer = &self.manifest.layers[order[i]];
            r.push(RenderLayer::from_manifest_layer(layer, self.path.as_str()));
            i += 1;
        }
        r
    }
}

/// A directory that stores installed wallpapers, one subdirectory each.
pub struct WallpaperDirectory {
    /// Base path for wallpapers.
    pub path: String,
}

impl WallpaperDirectory {
    /// A handle on the wallpaper directory at `path`.
    pub fn new(path: String) -> (r: Self)
        ensures
            r.path@ == path@,
    {
        WallpaperDirectory { path }
    }

    /// The path a wallpaper of the given name would live at.
    pub fn wallpaper_path(&self, name: &str) -> (r: String)
        ensures
            r@ == spec_join_path(self.path@, name@),
    {
        join_path(self.path.as_str(), name)
    }
}

} // verus!
