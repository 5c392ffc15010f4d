//! Scene background: which shader variant, bind group layout and pipeline
//! the skybox pass uses, and when the previous frame's bindings are kept.
use vstd::prelude::*;

use crate::format::{TextureFormat, ViewDimension};
use crate::graph::node::TextureNodeId;
use crate::pipeline::cache::RenderPipelineId;
use crate::pipeline::gpu_state::CompareFunction;
use crate::pipeline::pipeline_key::{
    replace_target, spec_replace_target, stencil_disabled, DepthBiasKey, DepthStencilKey,
    FullscreenPipelineKey, MultisampleKey, StencilStateKey,
};
use crate::pipeline::shader_defines::{has_key, spec_set, DefineEntries, ShaderDefines};
use crate::pipeline::shader_gen::{scene_blocks, ShaderCompilationOptions};

verus! {

/// How a background texture is projected.
#[derive(Debug, Clone, Copy, PartialEq, Eq, Structural, Hash)]
pub enum BackgroundMapping {
    Cube,
    Equirectangular,
    Planar,
}

/// The kind of scene background.
#[derive(Debug, Clone, Copy, PartialEq, Eq, Structural, Hash)]
pub enum BackgroundKind {
    /// A clear color: no skybox pass.
    Color,
    Gradient,
    Texture(BackgroundMapping),
    Procedural,
}

/// The star texture a procedural sky samples.
#[derive(Debug, Clone, Copy, PartialEq, Eq, Structural, Hash)]
pub enum ProceduralStarboxKind {
    NoStarbox,
    Equirectangular,
    Cube,
}

impl ProceduralStarboxKind {
    /// A 2D texture is an equirectangular starbox, a cube view a cube
    /// starbox; no other view dimension can be one.
    pub fn from_view_dimension(view_dimension: ViewDimension) -> (r: Option<Self>)
        ensures
            r == (match view_dimension {
                ViewDimension::D2 => Some(ProceduralStarboxKind::Equirectangular),
                ViewDimension::Cube => Some(ProceduralStarboxKind::Cube),
                _ => None,
            }),
    {
        match view_dimension {
            ViewDimension::D2 => Some(ProceduralStarboxKind::Equirectangular),
            ViewDimension::Cube => Some(ProceduralStarboxKind::Cube),
            _ => None,
        }
    }
}

/// The shader variant of the skybox.
#[derive(Debug, Clone, Copy, PartialEq, Eq, Structural, Hash)]
pub enum SkyboxVariant {
    Gradient,
    Cube,
    Equirectangular,
    Planar,
    Procedural,
}

/// The define that selects a variant in the skybox shader.
pub open spec fn spec_define_key(v: SkyboxVariant) -> Seq<char> {
    match v {
        SkyboxVariant::Gradient => "SKYBOX_GRADIENT"@,
        SkyboxVariant::Cube => "SKYBOX_CUBE"@,
        SkyboxVariant::Equirectangular => "SKYBOX_EQUIRECT"@,
        SkyboxVariant::Planar => "SKYBOX_PLANAR"@,
        SkyboxVariant::Procedural => "SKYBOX_PROCEDURAL"@,
    }
}

/// The defines of a variant, applied to `s`: its key; blue-noise dithering
/// for a gradient; for a procedural sky, the starbox define and the moon
/// texture define when they apply.
pub open spec fn spec_variant_defines(
    s: DefineEntries,
    v: SkyboxVariant,
    starbox: ProceduralStarboxKind,
    moon_texture: bool,
) -> DefineEntries {
    let s1 = spec_set(s, spec_define_key(v), "1"@);
    let s2 = if v == SkyboxVariant::Gradient {
        spec_set(s1, "USE_BLUE_NOISE"@, "1"@)
    } else {
        s1
    };
    if v == SkyboxVariant::Procedural {
        let s3 = match starbox {
            ProceduralStarboxKind::NoStarbox => s2,
            ProceduralStarboxKind::Equirectangular => spec_set(s2, "CELESTIAL_STARBOX_EQUIRECT"@, "1"@),
            ProceduralStarboxKind::Cube => spec_set(s2, "CELESTIAL_STARBOX_CUBE"@, "1"@),
        };
        if moon_texture {
            spec_set(s3, "USE_MOON_TEXTURE"@, "1"@)
        } else {
            s3
        }
    } else {
        s2
    }
}

/// The defines a skybox pipeline of variant `v` gets on an empty set, in
/// order: the variant's key; blue-noise dithering for a gradient; for a
/// procedural sky, the starbox define when there is a starbox and the moon
/// texture define when a moon texture is used. Every value is `1`.
pub open spec fn skybox_defines_from_empty(
    v: SkyboxVariant,
    starbox: ProceduralStarboxKind,
    moon_texture: bool,
) -> DefineEntries {
    seq![(spec_define_key(v), "1"@)] + (if v == SkyboxVariant::Gradient {
        seq![("USE_BLUE_NOISE"@, "1"@)]
    } else {
        Seq::empty()
    }) + (if v == SkyboxVariant::Procedural {
        (match starbox {
            ProceduralStarboxKind::NoStarbox => Seq::empty(),
            ProceduralStarboxKind::Equirectangular => seq![("CELESTIAL_STARBOX_EQUIRECT"@, "1"@)],
            ProceduralStarboxKind::Cube => seq![("CELESTIAL_STARBOX_CUBE"@, "1"@)],
        }) + (if moon_texture {
            seq![("USE_MOON_TEXTURE"@, "1"@)]
        } else {
            Seq::empty()
        })
    } else {
        Seq::empty()
    })
}

proof fn lemma_set_fresh(s: DefineEntries, k: Seq<char>, v: Seq<char>)
    requires
        forall|i: int| 0 <= i < s.len() ==> s[i].0.len() != k.len(),
    ensures
        spec_set(s, k, v) == s.push((k, v)),
{
    if has_key(s, k) {
        let i = crate::pipeline::shader_defines::key_index(s, k);
        assert(s[i].0 == k);
    }
}

/// Applied to an empty set, a variant's defines are exactly those listed
/// by `skybox_defines_from_empty`, in that order.
pub proof fn lemma_variant_defines_from_empty(v: SkyboxVariant, starbox: ProceduralStarboxKind, moon_texture: bool)
    ensures
        spec_variant_defines(Seq::empty(), v, starbox, moon_texture) == skybox_defines_from_empty(
            v,
            starbox,
            moon_texture,
        ),
{
    reveal_strlit("SKYBOX_GRADIENT");
    reveal_strlit("SKYBOX_CUBE");
    reveal_strlit("SKYBOX_EQUIRECT");
    reveal_strlit("SKYBOX_PLANAR");
    reveal_strlit("SKYBOX_PROCEDURAL");
    reveal_strlit("USE_BLUE_NOISE");
    reveal_strlit("CELESTIAL_STARBOX_EQUIRECT");
    reveal_strlit("CELESTIAL_STARBOX_CUBE");
    reveal_strlit("USE_MOON_TEXTURE");
    let e = Seq::<(Seq<char>, Seq<char>)>::empty();
    let k = spec_define_key(v);
    lemma_set_fresh(e, k, "1"@);
    let s1 = e.push((k, "1"@));
    if v == SkyboxVariant::Gradient {
        lemma_set_fresh(s1, "USE_BLUE_NOISE"@, "1"@);
    }
    if v == SkyboxVariant::Procedural {
        let s3 = match starbox {
            ProceduralStarboxKind::NoStarbox => s1,
            ProceduralStarboxKind::Equirectangular => {
                lemma_set_fresh(s1, "CELESTIAL_STARBOX_EQUIRECT"@, "1"@);
                s1.push(("CELESTIAL_STARBOX_EQUIRECT"@, "1"@))
            },
            ProceduralStarboxKind::Cube => {
                lemma_set_fresh(s1, "CELESTIAL_STARBOX_CUBE"@, "1"@);
                s1.push(("CELESTIAL_STARBOX_CUBE"@, "1"@))
            },
        };
        if moon_texture {
            lemma_set_fresh(s3, "USE_MOON_TEXTURE"@, "1"@);
        }
    }
    assert(spec_variant_defines(e, v, starbox, moon_texture) =~= skybox_defines_from_empty(
        v,
        starbox,
        moon_texture,
    ));
}

/// The variant drawing a background; a clear color draws none.
pub open spec fn spec_variant_of(bg: BackgroundKind) -> Option<SkyboxVariant> {
    match bg {
        BackgroundKind::Color => None,
        BackgroundKind::Gradient => Some(SkyboxVariant::Gradient),
        BackgroundKind::Texture(BackgroundMapping::Cube) => Some(SkyboxVariant::Cube),
        BackgroundKind::Texture(BackgroundMapping::Equirectangular) => Some(SkyboxVariant::Equirectangular),
        BackgroundKind::Texture(BackgroundMapping::Planar) => Some(SkyboxVariant::Planar),
        BackgroundKind::Procedural => Some(SkyboxVariant::Procedural),
    }
}

/// Each background draws with the variant of its own kind: a texture
/// background with the variant named after its mapping (whose shader define
/// names the mapping), a gradient and a procedural sky with theirs, a clear
/// colour with none; distinct drawn backgrounds never share a variant.
pub proof fn lemma_variant_follows_background(bg: BackgroundKind, other: BackgroundKind, m: BackgroundMapping)
    ensures
        spec_variant_of(BackgroundKind::Texture(m)) == Some(
            match m {
                BackgroundMapping::Cube => SkyboxVariant::Cube,
                BackgroundMapping::Equirectangular => SkyboxVariant::Equirectangular,
                BackgroundMapping::Planar => SkyboxVariant::Planar,
            },
        ),
        spec_define_key(spec_variant_of(BackgroundKind::Texture(m)).unwrap()) == (match m {
            BackgroundMapping::Cube => "SKYBOX_CUBE"@,
            BackgroundMapping::Equirectangular => "SKYBOX_EQUIRECT"@,
            BackgroundMapping::Planar => "SKYBOX_PLANAR"@,
        }),
        spec_variant_of(BackgroundKind::Gradient) == Some(SkyboxVariant::Gradient),
        spec_variant_of(BackgroundKind::Procedural) == Some(SkyboxVariant::Procedural),
        spec_variant_of(bg) is None <==> bg == BackgroundKind::Color,
        spec_variant_of(bg) is Some && spec_variant_of(bg) == spec_variant_of(other) ==> bg == other,
{
}

impl SkyboxVariant {
    /// The variant drawing `mode`; a clear color draws no skybox.
    pub fn from_background(mode: BackgroundKind) -> (r: Option<Self>)
        ensures
            r == spec_variant_of(mode),
    {
        match mode {
            BackgroundKind::Color => None,
            BackgroundKind::Gradient => Some(SkyboxVariant::Gradient),
            BackgroundKind::Texture(mapping) => match mapping {
                BackgroundMapping::Cube => Some(SkyboxVariant::Cube),
                BackgroundMapping::Equirectangular => Some(SkyboxVariant::Equirectangular),
                BackgroundMapping::Planar => Some(SkyboxVariant::Planar),
            },
            BackgroundKind::Procedural => Some(SkyboxVariant::Procedural),
        }
    }

    /// The shader define that selects this variant.
    pub fn shader_define_key(self) -> (r: &'static str)
        ensures
            r@ == spec_define_key(self),
    {
        match self {
            SkyboxVariant::Gradient => "SKYBOX_GRADIENT",
            SkyboxVariant::Cube => "SKYBOX_CUBE",
            SkyboxVariant::Equirectangular => "SKYBOX_EQUIRECT",
            SkyboxVariant::Planar => "SKYBOX_PLANAR",
            SkyboxVariant::Procedural => "SKYBOX_PROCEDURAL",
        }
    }

    /// Every variant but the gradient samples a texture.
    pub fn needs_texture(self) -> (r: bool)
        ensures
            r == (self != SkyboxVariant::Gradient),
    {
        !matches!(self, SkyboxVariant::Gradient)
    }

    /// Adds the defines of this variant to `defines`.
    pub fn apply_shader_defines(
        self,
        defines: &mut ShaderDefines,
        starbox_kind: ProceduralStarboxKind,
        moon_texture: bool,
    )
        requires
            old(defines).wf(),
        ensures
            final(defines).wf(),
            final(defines).view() == spec_variant_defines(old(defines).view(), self, starbox_kind, moon_texture),
    {
        defines.set(self.shader_define_key(), "1");
        if self == SkyboxVariant::Gradient {
            defines.set("USE_BLUE_NOISE", "1");
        }
        if self == SkyboxVariant::Procedural {
            match starbox_kind {
                ProceduralStarboxKind::NoStarbox => {},
                ProceduralStarboxKind::Equirectangular => {
                    defines.set("CELESTIAL_STARBOX_EQUIRECT", "1");
                },
                ProceduralStarboxKind::Cube => {
                    defines.set("CELESTIAL_STARBOX_CUBE", "1");
                },
            }
            if moon_texture {
                defines.set("USE_MOON_TEXTURE", "1");
            }
        }
    }
}

/// Everything a skybox pipeline depends on.
#[derive(Debug, Clone, Copy, PartialEq, Eq, Structural, Hash)]
pub struct SkyboxPipelineKey {
    pub variant: SkyboxVariant,
    pub procedural_starbox: ProceduralStarboxKind,
    pub procedural_moon_texture: bool,
    pub color_format: TextureFormat,
    pub depth_format: TextureFormat,
    pub msaa_samples: u32,
}

/// The shader options of a skybox pipeline: the variant's defines, then
/// the skybox uniform struct; the global binding code and the scene-lighting
/// structs as code blocks.
pub fn skybox_shader_options(
    key: &SkyboxPipelineKey,
    struct_definitions: &str,
    binding_wgsl: &str,
    scene_lighting_structs: &str,
) -> (r: ShaderCompilationOptions)
    ensures
        r.wf(),
        r.defines.view() == spec_set(
            spec_variant_defines(
                Seq::empty(),
                key.variant,
                key.procedural_starbox,
                key.procedural_moon_texture,
            ),
            "struct_definitions"@,
            struct_definitions@,
        ),
        r.code_blocks.view() == scene_blocks(binding_wgsl@, scene_lighting_structs@),
{
    let mut defines = ShaderDefines::new();
    key.variant.apply_shader_defines(&mut defines, key.procedural_starbox, key.procedural_moon_texture);
    let mut options = ShaderCompilationOptions { defines, code_blocks: ShaderDefines::new() };
    options.add_define("struct_definitions", struct_definitions);
    options.inject_code("binding_code", binding_wgsl);
    options.inject_code("scene_lighting_structs", scene_lighting_structs);
    options
}

/// The depth state of the skybox: tested with greater-or-equal against the
/// scene depth, never written; no stencil, no bias.
pub open spec fn skybox_depth_stencil(depth_format: TextureFormat) -> DepthStencilKey {
    DepthStencilKey {
        format: depth_format,
        depth_write_enabled: Some(false),
        depth_compare: Some(CompareFunction::GreaterEqual),
        stencil: stencil_disabled(),
        bias: DepthBiasKey { constant: 0, slope_scale_bits: 0, clamp_bits: 0 },
    }
}

/// The fullscreen pipeline key of a skybox pipeline compiled to
/// `shader_hash`: one replacing target of the color format, the skybox
/// depth state, and the key's sample count with every mask bit.
pub fn skybox_fullscreen_key(key: &SkyboxPipelineKey, shader_hash: u128) -> (r: FullscreenPipelineKey)
    ensures
        r.shader_hash == shader_hash,
        r.color_targets@ == seq![spec_replace_target(key.color_format)],
        r.depth_stencil == Some(skybox_depth_stencil(key.depth_format)),
        r.multisample == (MultisampleKey {
            count: key.msaa_samples,
            mask: u64::MAX,
            alpha_to_coverage_enabled: false,
        }),
{
    let mut targets = Vec::new();
    targets.push(replace_target(key.color_format));
    let depth = DepthStencilKey {
        format: key.depth_format,
        depth_write_enabled: Some(false),
        depth_compare: Some(CompareFunction::GreaterEqual),
        stencil: StencilStateKey::disabled(),
        bias: DepthBiasKey::none(),
    };
    assert(targets@ =~= seq![spec_replace_target(key.color_format)]);
    FullscreenPipelineKey {
        shader_hash,
        color_targets: targets,
        depth_stencil: Some(depth),
        multisample: MultisampleKey {
            count: key.msaa_samples,
            mask: u64::MAX,
            alpha_to_coverage_enabled: false,
        },
    }
}

/// The bind group layouts of group 1.
#[derive(Debug, Clone, Copy, PartialEq, Eq, Structural)]
pub enum SkyboxLayout {
    Gradient,
    Cube,
    Texture2d,
    Procedural,
    ProceduralEquirect,
    ProceduralCube,
}

/// The layout of a variant: equirectangular and planar share the 2D one; a
/// procedural sky's depends on its starbox.
pub open spec fn spec_layout_for(variant: SkyboxVariant, starbox: ProceduralStarboxKind) -> SkyboxLayout {
    match variant {
        SkyboxVariant::Gradient => SkyboxLayout::Gradient,
        SkyboxVariant::Cube => SkyboxLayout::Cube,
        SkyboxVariant::Equirectangular | SkyboxVariant::Planar => SkyboxLayout::Texture2d,
        SkyboxVariant::Procedural => match starbox {
            ProceduralStarboxKind::NoStarbox => SkyboxLayout::Procedural,
            ProceduralStarboxKind::Equirectangular => SkyboxLayout::ProceduralEquirect,
            ProceduralStarboxKind::Cube => SkyboxLayout::ProceduralCube,
        },
    }
}

/// The group-1 layout of `variant`.
pub fn layout_for_variant(variant: SkyboxVariant, procedural_starbox: ProceduralStarboxKind) -> (r: SkyboxLayout)
    ensures
        r == spec_layout_for(variant, procedural_starbox),
{
    match variant {
        SkyboxVariant::Gradient => SkyboxLayout::Gradient,
        SkyboxVariant::Cube => SkyboxLayout::Cube,
        SkyboxVariant::Equirectangular | SkyboxVariant::Planar => SkyboxLayout::Texture2d,
        SkyboxVariant::Procedural => match procedural_starbox {
            ProceduralStarboxKind::NoStarbox => SkyboxLayout::Procedural,
            ProceduralStarboxKind::Equirectangular => SkyboxLayout::ProceduralEquirect,
            ProceduralStarboxKind::Cube => SkyboxLayout::ProceduralCube,
        },
    }
}

/// A texture view found for a source, with its dimension and identity.
#[derive(Debug, Clone, Copy, PartialEq, Eq, Structural)]
pub struct ResolvedTextureView {
    pub view_dimension: ViewDimension,
    pub resource_key: u64,
}

/// Whether a view of `dimension` can be drawn with `mapping`: a cube map
/// needs a cube view, the others a 2D one.
pub open spec fn spec_mapping_accepts(mapping: BackgroundMapping, dimension: ViewDimension) -> bool {
    match mapping {
        BackgroundMapping::Cube => dimension == ViewDimension::Cube,
        BackgroundMapping::Equirectangular | BackgroundMapping::Planar => dimension == ViewDimension::D2,
    }
}

/// The background texture, if its view suits `mapping`.
pub fn resolve_texture_view(resolved: Option<ResolvedTextureView>, mapping: BackgroundMapping) -> (r: Option<
    ResolvedTextureView,
>)
    ensures
        r == (match resolved {
            Some(v) => if spec_mapping_accepts(mapping, v.view_dimension) {
                Some(v)
            } else {
                None
            },
            None => None,
        }),
{
    let v = match resolved {
        Some(v) => v,
        None => return None,
    };
    let ok = match mapping {
        BackgroundMapping::Cube => matches!(v.view_dimension, ViewDimension::Cube),
        BackgroundMapping::Equirectangular | BackgroundMapping::Planar => matches!(v.view_dimension, ViewDimension::D2),
    };
    if ok {
        Some(v)
    } else {
        None
    }
}

/// The moon texture bound for a procedural sky: the scene's when it is a 2D
/// view, otherwise a white texture with the moon texture disabled.
pub open spec fn spec_moon_binding(resolved: Option<ResolvedTextureView>, white_id: u64) -> (u64, bool) {
    match resolved {
        Some(v) => if v.view_dimension == ViewDimension::D2 {
            (v.resource_key, true)
        } else {
            (white_id, false)
        },
        None => (white_id, false),
    }
}

/// The moon texture's identity and whether it is enabled.
pub fn resolve_procedural_moon_view(resolved: Option<ResolvedTextureView>, white_id: u64) -> (r: (u64, bool))
    ensures
        r == spec_moon_binding(resolved, white_id),
{
    match resolved {
        Some(v) => match v.view_dimension {
            ViewDimension::D2 => (v.resource_key, true),
            _ => (white_id, false),
        },
        None => (white_id, false),
    }
}

/// The textures group 1 binds, besides the parameter buffer and sampler.
#[derive(Debug, Clone, Copy, PartialEq, Eq, Structural)]
pub enum SkyboxBinding {
    /// The blue-noise dithering texture.
    Gradient,
    /// The background texture.
    Texture { resource_key: u64 },
    /// The atmosphere's LUTs, the moon texture and the starbox if any.
    Procedural { moon_resource_key: u64, starbox_resource_key: Option<u64> },
}

/// What the skybox draws with this frame.
#[derive(Debug, Clone, Copy, PartialEq, Eq, Structural)]
pub enum SkyboxPlan {
    /// Nothing: no skybox, or its resources are missing.
    Disabled,
    /// A texture is still loading: the previous frame's bindings are kept.
    KeepPrevious,
    /// New bindings of `layout` with `binding`, drawn with the pipeline of `key`.
    Draw { layout: SkyboxLayout, binding: SkyboxBinding, key: SkyboxPipelineKey },
}

/// What the frame offers the skybox.
#[derive(Debug, Clone, Copy, PartialEq, Eq, Structural)]
pub struct SkyboxInputs {
    pub background: BackgroundKind,
    /// The background texture is an asset still loading.
    pub texture_pending: bool,
    /// The procedural starbox texture is an asset still loading.
    pub starbox_pending: bool,
    /// The procedural moon texture is an asset still loading.
    pub moon_pending: bool,
    /// The background texture's view, when its source resolved.
    pub texture: Option<ResolvedTextureView>,
    /// The procedural starbox's view, when its source resolved.
    pub starbox: Option<ResolvedTextureView>,
    /// The procedural moon texture's view, when its source resolved.
    pub moon: Option<ResolvedTextureView>,
    /// Identity of the white fallback texture.
    pub white_texture_id: u64,
    /// The atmosphere has prepared its LUTs for this scene.
    pub procedural_resources_ready: bool,
    pub color_format: TextureFormat,
    pub depth_format: TextureFormat,
    pub msaa_samples: u32,
}

/// The starbox of a procedural sky, if its view can be one.
pub open spec fn spec_starbox(inputs: SkyboxInputs) -> Option<(ProceduralStarboxKind, u64)> {
    match inputs.starbox {
        Some(v) => match v.view_dimension {
            ViewDimension::D2 => Some((ProceduralStarboxKind::Equirectangular, v.resource_key)),
            ViewDimension::Cube => Some((ProceduralStarboxKind::Cube, v.resource_key)),
            _ => None,
        },
        None => None,
    }
}

/// The plan for `inputs`, given whether bindings and a pipeline from an
/// earlier frame exist.
pub open spec fn spec_skybox_plan(has_current: bool, inputs: SkyboxInputs) -> SkyboxPlan {
    match spec_variant_of(inputs.background) {
        None => SkyboxPlan::Disabled,
        Some(variant) => {
            let procedural = variant == SkyboxVariant::Procedural;
            let is_texture = inputs.background is Texture;
            if has_current && ((is_texture && inputs.texture_pending) || (procedural && (
            inputs.starbox_pending || inputs.moon_pending))) {
                SkyboxPlan::KeepPrevious
            } else {
                let starbox = if procedural { spec_starbox(inputs) } else { None };
                let starbox_kind = match starbox {
                    Some(sb) => sb.0,
                    None => ProceduralStarboxKind::NoStarbox,
                };
                let moon = spec_moon_binding(inputs.moon, inputs.white_texture_id);
                let key = SkyboxPipelineKey {
                    variant,
                    procedural_starbox: starbox_kind,
                    procedural_moon_texture: procedural && moon.1,
                    color_format: inputs.color_format,
                    depth_format: inputs.depth_format,
                    msaa_samples: inputs.msaa_samples,
                };
                let layout = spec_layout_for(variant, starbox_kind);
                if procedural {
                    if !inputs.procedural_resources_ready {
                        SkyboxPlan::Disabled
                    } else {
                        SkyboxPlan::Draw {
                            layout,
                            binding: SkyboxBinding::Procedural {
                                moon_resource_key: moon.0,
                                starbox_resource_key: match starbox {
                                    Some(sb) => Some(sb.1),
                                    None => None,
                                },
                            },
                            key,
                        }
                    }
                } else if variant != SkyboxVariant::Gradient {
                    let texture = match inputs.background {
                        BackgroundKind::Texture(mapping) => match inputs.texture {
                            Some(v) => if spec_mapping_accepts(mapping, v.view_dimension) {
                                Some(v)
                            } else {
                                None
                            },
                            None => None,
                        },
                        _ => None,
                    };
                    match texture {
                        Some(v) => SkyboxPlan::Draw {
                            layout,
                            binding: SkyboxBinding::Texture { resource_key: v.resource_key },
                            key,
                        },
                        None => SkyboxPlan::Disabled,
                    }
                } else {
                    SkyboxPlan::Draw { layout, binding: SkyboxBinding::Gradient, key }
                }
            }
        },
    }
}

/// A cached skybox pipeline.
#[derive(Debug, Clone, Copy, PartialEq, Eq, Structural)]
pub struct SkyboxPipelineEntry {
    pub key: SkyboxPipelineKey,
    pub id: RenderPipelineId,
}

/// Whether `key` is cached in `s`, and under which pipeline.
pub open spec fn spec_cached(s: Seq<SkyboxPipelineEntry>, key: SkyboxPipelineKey) -> Option<RenderPipelineId> {
    if exists|i: int| 0 <= i < s.len() && #[trigger] s[i].key == key {
        Some(s[choose|i: int| 0 <= i < s.len() && #[trigger] s[i].key == key].id)
    } else {
        None
    }
}

/// No key is cached twice.
pub open spec fn keys_unique(s: Seq<SkyboxPipelineEntry>) -> bool {
    forall|i: int, j: int|
        0 <= i < s.len() && 0 <= j < s.len() && i != j ==> #[trigger] s[i].key != #[trigger] s[j].key
}

/// The skybox / background feature.
pub struct SkyboxFeature {
    pub scene_color: TextureNodeId,
    pub scene_depth: TextureNodeId,
    local_cache: Vec<SkyboxPipelineEntry>,
    has_bind_group: bool,
    current_pipeline: Option<RenderPipelineId>,
}

impl SkyboxFeature {
    pub closed spec fn wf(&self) -> bool {
        keys_unique(self.local_cache@)
    }

    /// The pipeline cached for `key`, if any.
    pub closed spec fn cached(&self, key: SkyboxPipelineKey) -> Option<RenderPipelineId> {
        spec_cached(self.local_cache@, key)
    }

    /// Whether group-1 bindings from an earlier frame exist.
    pub closed spec fn has_bindings(&self) -> bool {
        self.has_bind_group
    }

    /// The color and depth slots the pass is wired to.
    pub closed spec fn slots(&self) -> (TextureNodeId, TextureNodeId) {
        (self.scene_color, self.scene_depth)
    }

    /// The pipeline the pass draws with.
    pub closed spec fn pipeline(&self) -> Option<RenderPipelineId> {
        self.current_pipeline
    }

    /// A feature with nothing cached or bound.
    pub fn new() -> (r: Self)
        ensures
            r.wf(),
            r.slots() == (TextureNodeId(0), TextureNodeId(0)),
            !r.has_bindings(),
            r.pipeline() is None,
            forall|k: SkyboxPipelineKey| r.cached(k) is None,
    {
        SkyboxFeature {
            scene_color: TextureNodeId::from_index(0),
            scene_depth: TextureNodeId::from_index(0),
            local_cache: Vec::new(),
            has_bind_group: false,
            current_pipeline: None,
        }
    }

    /// Decides what the skybox draws this frame. A disabled plan drops the
    /// bindings and pipeline; a new one records that bindings exist (the
    /// pipeline is then chosen with `set_pipeline`); keeping the previous
    /// frame changes nothing.
    pub fn extract_and_prepare(&mut self, inputs: &SkyboxInputs) -> (r: SkyboxPlan)
        requires
            old(self).wf(),
        ensures
            final(self).wf(),
            r == spec_skybox_plan(old(self).has_bindings() && old(self).pipeline() is Some, *inputs),
            forall|k: SkyboxPipelineKey| final(self).cached(k) == old(self).cached(k),
            final(self).slots() == old(self).slots(),
            match r {
                SkyboxPlan::Disabled => !final(self).has_bindings() && final(self).pipeline() is None,
                SkyboxPlan::KeepPrevious => final(self).has_bindings() == old(self).has_bindings()
                    && final(self).pipeline() == old(self).pipeline(),
                SkyboxPlan::Draw { .. } => final(self).has_bindings() && final(self).pipeline()
                    == old(self).pipeline(),
            },
    {
        let plan = Self::plan(self.has_bind_group && self.current_pipeline.is_some(), inputs);
        match plan {
            SkyboxPlan::Disabled => {
                self.has_bind_group = false;
                self.current_pipeline = None;
            },
            SkyboxPlan::KeepPrevious => {},
            SkyboxPlan::Draw { .. } => {
                self.has_bind_group = true;
            },
        }
        plan
    }

    /// The plan for `inputs` given whether earlier bindings exist.
    fn plan(has_current: bool, inputs: &SkyboxInputs) -> (r: SkyboxPlan)
        ensures
            r == spec_skybox_plan(has_current, *inputs),
    {
        let variant = match SkyboxVariant::from_background(inputs.background) {
            Some(v) => v,
            None => return SkyboxPlan::Disabled,
        };
        let procedural = matches!(variant, SkyboxVariant::Procedural);
        let is_texture = matches!(inputs.background, BackgroundKind::Texture(_));
        if has_current && ((is_texture && inputs.texture_pending) || (procedural && (inputs.starbox_pending
            || inputs.moon_pending))) {
            return SkyboxPlan::KeepPrevious;
        }
        let starbox: Option<(ProceduralStarboxKind, u64)> = if procedural {
            match inputs.starbox {
                Some(v) => match ProceduralStarboxKind::from_view_dimension(v.view_dimension) {
                    Some(kind) => Some((kind, v.resource_key)),
                    None => None,
                },
                None => None,
            }
        } else {
            None
        };
        let starbox_kind = match starbox {
            Some(sb) => sb.0,
            None => ProceduralStarboxKind::NoStarbox,
        };
        let moon = resolve_procedural_moon_view(inputs.moon, inputs.white_texture_id);
        let key = SkyboxPipelineKey {
            variant,
            procedural_starbox: starbox_kind,
            procedural_moon_texture: procedural && moon.1,
            color_format: inputs.color_format,
            depth_format: inputs.depth_format,
            msaa_samples: inputs.msaa_samples,
        };
        let layout = layout_for_variant(variant, starbox_kind);
        if procedural {
            if !inputs.procedural_resources_ready {
                SkyboxPlan::Disabled
            } else {
                let starbox_resource_key = match starbox {
                    Some(sb) => Some(sb.1),
                    None => None,
                };
                SkyboxPlan::Draw {
                    layout,
                    binding: SkyboxBinding::Procedural { moon_resource_key: moon.0, starbox_resource_key },
                    key,
                }
            }
        } else if variant.needs_texture() {
            let texture = match inputs.background {
                BackgroundKind::Texture(mapping) => resolve_texture_view(inputs.texture, mapping),
                _ => None,
            };
            match texture {
                Some(v) => SkyboxPlan::Draw {
                    layout,
                    binding: SkyboxBinding::Texture { resource_key: v.resource_key },
                    key,
                },
                None => SkyboxPlan::Disabled,
            }
        } else {
            SkyboxPlan::Draw { layout, binding: SkyboxBinding::Gradient, key }
        }
    }

    /// The pipeline cached for `key`, if it was created before.
    pub fn cached_pipeline(&self, key: &SkyboxPipelineKey) -> (r: Option<RenderPipelineId>)
        requires
            self.wf(),
        ensures
            r == self.cached(*key),
    {
        let mut i: usize = 0;
        while i < self.local_cache.len()
            invariant
                keys_unique(self.local_cache@),
                i <= self.local_cache@.len(),
                forall|j: int| 0 <= j < i ==> #[trigger] self.local_cache@[j].key != *key,
            decreases self.local_cache@.len() - i,
        {
            if self.local_cache[i].key == *key {
                proof {
                    let s = self.local_cache@;
                    let c = choose|j: int| 0 <= j < s.len() && #[trigger] s[j].key == *key;
                    assert(s[i as int].key == *key);
                    assert(c == i);
                }
                return Some(self.local_cache[i].id);
            }
            i = i + 1;
        }
        None
    }

    /// Draws with pipeline `id` for `key` from now on; the first pipeline
    /// given for a key is cached for it.
    pub fn set_pipeline(&mut self, key: SkyboxPipelineKey, id: RenderPipelineId)
        requires
            old(self).wf(),
        ensures
            final(self).wf(),
            final(self).pipeline() == Some(id),
            final(self).has_bindings() == old(self).has_bindings(),
            final(self).slots() == old(self).slots(),
            final(self).cached(key) == (match old(self).cached(key) {
                Some(c) => Some(c),
                None => Some(id),
            }),
            forall|k: SkyboxPipelineKey| k != key ==> final(self).cached(k) == old(self).cached(k),
    {
        if self.cached_pipeline(&key).is_none() {
            let ghost s0 = self.local_cache@;
            let entry = SkyboxPipelineEntry { key, id };
            self.local_cache.push(entry);
            proof {
                let s1 = self.local_cache@;
                assert(s1[s0.len() as int].key == key);
                assert forall|k: SkyboxPipelineKey| k != key implies spec_cached(s1, k) == spec_cached(s0, k) by {
                    if exists|i: int| 0 <= i < s1.len() && #[trigger] s1[i].key == k {
                        let i = choose|i: int| 0 <= i < s1.len() && #[trigger] s1[i].key == k;
                        assert(s0[i].key == k);
                        let c1 = choose|i: int| 0 <= i < s1.len() && #[trigger] s1[i].key == k;
                        let c0 = choose|i: int| 0 <= i < s0.len() && #[trigger] s0[i].key == k;
                        assert(s1[c0].key == k);
                    }
                    if exists|i: int| 0 <= i < s0.len() && #[trigger] s0[i].key == k {
                        let i = choose|i: int| 0 <= i < s0.len() && #[trigger] s0[i].key == k;
                        assert(s1[i].key == k);
                    }
                }
                assert forall|a: int, b: int|
                    0 <= a < s1.len() && 0 <= b < s1.len() && a != b implies #[trigger] s1[a].key
                        != #[trigger] s1[b].key by {
                    if a < s0.len() && b < s0.len() {
                        assert(s1[a] == s0[a] && s1[b] == s0[b]);
                    } else if a < s0.len() {
                        assert(s1[a] == s0[a]);
                    } else if b < s0.len() {
                        assert(s1[b] == s0[b]);
                    }
                }
                let c = choose|i: int| 0 <= i < s1.len() && #[trigger] s1[i].key == key;
                assert(c == s0.len());
            }
        }
        self.current_pipeline = Some(id);
    }

    /// Whether the skybox pass draws: only with both bindings and a pipeline.
    pub fn draws(&self) -> (r: bool)
        ensures
            r == (self.has_bindings() && self.pipeline() is Some),
    {
        self.has_bind_group && self.current_pipeline.is_some()
    }
}

/// The textures the skybox pass reads besides depth: the present ones of
/// `dependency_textures`, in order.
pub fn dependency_reads(dependency_textures: [Option<TextureNodeId>; 2]) -> (r: Vec<TextureNodeId>)
    ensures
        r@ == (match (dependency_textures[0], dependency_textures[1]) {
            (Some(a), Some(b)) => seq![a, b],
            (Some(a), None) => seq![a],
            (None, Some(b)) => seq![b],
            (None, None) => Seq::<TextureNodeId>::empty(),
        }),
{
    let mut out: Vec<TextureNodeId> = Vec::new();
    if let Some(a) = dependency_textures[0] {
        out.push(a);
    }
    if let Some(b) = dependency_textures[1] {
        out.push(b);
    }
    proof {
        assert(out@ =~= (match (dependency_textures[0], dependency_textures[1]) {
            (Some(a), Some(b)) => seq![a, b],
            (Some(a), None) => seq![a],
            (None, Some(b)) => seq![b],
            (None, None) => Seq::<TextureNodeId>::empty(),
        }));
    }
    out
}

} // verus!
