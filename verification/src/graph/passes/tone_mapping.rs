//! Tone mapping: which pipeline variant is used, when a loading LUT keeps
//! the previous frame's setup, and when the static bind group is rebuilt.
use vstd::prelude::*;

use crate::format::TextureFormat;
use crate::pipeline::cache::RenderPipelineId;
use crate::pipeline::pipeline_key::{
    replace_target, spec_replace_target, DepthStencilKey, FullscreenPipelineKey, MultisampleKey,
};
use crate::pipeline::shader_defines::{spec_set, DefineEntries, ShaderDefines};
use crate::pipeline::shader_gen::{scene_blocks, ShaderCompilationOptions};

verus! {

/// Loading state of the colour-grading LUT texture.
#[derive(Debug, Clone, Copy, PartialEq, Eq, Structural)]
pub enum LutResourceState {
    Ready,
    Pending,
    Unknown,
}

/// Everything a tone-mapping pipeline depends on. The mode is identified by
/// a number the embedding layer assigns to each tone-mapping operator.
#[derive(Debug, Clone, Copy, PartialEq, Eq, Structural, Hash)]
pub struct ToneMappingPipelineKey {
    pub mode: u32,
    pub output_format: TextureFormat,
    pub has_lut: bool,
}

/// A cached tone-mapping pipeline.
#[derive(Debug, Clone, Copy, PartialEq, Eq, Structural)]
pub struct ToneMappingPipelineEntry {
    pub key: ToneMappingPipelineKey,
    pub id: RenderPipelineId,
}

/// What preparing the pass decided.
#[derive(Debug, Clone, Copy, PartialEq, Eq, Structural)]
pub enum ToneMapPrepare {
    /// The LUT is still loading and a pipeline exists: keep last frame's setup.
    KeepPrevious,
    /// Go on, with or without the LUT.
    Continue { has_lut: bool },
}

/// The group-1 layout: with or without the LUT bindings.
#[derive(Debug, Clone, Copy, PartialEq, Eq, Structural)]
pub enum ToneMapStaticLayout {
    Base,
    Lut,
}

pub open spec fn spec_tm_cached(s: Seq<ToneMappingPipelineEntry>, key: ToneMappingPipelineKey) -> Option<RenderPipelineId> {
    if exists|i: int| 0 <= i < s.len() && #[trigger] s[i].key == key {
        Some(s[choose|i: int| 0 <= i < s.len() && #[trigger] s[i].key == key].id)
    } else {
        None
    }
}

pub open spec fn tm_keys_unique(s: Seq<ToneMappingPipelineEntry>) -> bool {
    forall|i: int, j: int|
        0 <= i < s.len() && 0 <= j < s.len() && i != j ==> #[trigger] s[i].key != #[trigger] s[j].key
}

/// The defines tone mapping adds besides the operator's own: `USE_LUT` with
/// a LUT, and always blue-noise dithering.
pub fn apply_pipeline_defines(defines: &mut ShaderDefines, has_lut: bool)
    requires
        old(defines).wf(),
    ensures
        final(defines).wf(),
        final(defines).view() == spec_set(
            if has_lut {
                spec_set(old(defines).view(), "USE_LUT"@, "1"@)
            } else {
                old(defines).view()
            },
            "USE_BLUE_NOISE"@,
            "1"@,
        ),
{
    if has_lut {
        defines.set("USE_LUT", "1");
    }
    defines.set("USE_BLUE_NOISE", "1");
}

/// The defines of a tone-mapping pipeline built on the operator's defines
/// `mode_defines`: `USE_LUT` with a LUT, blue-noise dithering, then the
/// uniform struct.
pub open spec fn tone_mapping_defines(
    mode_defines: DefineEntries,
    has_lut: bool,
    struct_definitions: Seq<char>,
) -> DefineEntries {
    spec_set(
        spec_set(
            if has_lut {
                spec_set(mode_defines, "USE_LUT"@, "1"@)
            } else {
                mode_defines
            },
            "USE_BLUE_NOISE"@,
            "1"@,
        ),
        "struct_definitions"@,
        struct_definitions,
    )
}

/// The shader options of a tone-mapping pipeline: the operator's defines
/// with the pipeline's own added, and the global binding code and the
/// scene-lighting structs as code blocks.
pub fn tone_mapping_shader_options(
    mode_defines: &ShaderDefines,
    has_lut: bool,
    struct_definitions: &str,
    binding_wgsl: &str,
    scene_lighting_structs: &str,
) -> (r: ShaderCompilationOptions)
    requires
        mode_defines.wf(),
    ensures
        r.wf(),
        r.defines.view() == tone_mapping_defines(mode_defines.view(), has_lut, struct_definitions@),
        r.code_blocks.view() == scene_blocks(binding_wgsl@, scene_lighting_structs@),
{
    let mut defines = mode_defines.clone();
    apply_pipeline_defines(&mut defines, has_lut);
    let mut options = ShaderCompilationOptions { defines, code_blocks: ShaderDefines::new() };
    options.add_define("struct_definitions", struct_definitions);
    options.inject_code("binding_code", binding_wgsl);
    options.inject_code("scene_lighting_structs", scene_lighting_structs);
    options
}

/// The fullscreen pipeline key of a tone-mapping pipeline compiled to
/// `shader_hash`: one replacing target of the output format, no depth,
/// single sampling.
pub fn tone_mapping_fullscreen_key(output_format: TextureFormat, shader_hash: u128) -> (r:
    FullscreenPipelineKey)
    ensures
        r.shader_hash == shader_hash,
        r.color_targets@ == seq![spec_replace_target(output_format)],
        r.depth_stencil == None::<DepthStencilKey>,
        r.multisample == (MultisampleKey { count: 1, mask: u64::MAX, alpha_to_coverage_enabled: false }),
{
    let mut targets = Vec::new();
    targets.push(replace_target(output_format));
    assert(targets@ =~= seq![spec_replace_target(output_format)]);
    FullscreenPipelineKey::fullscreen(shader_hash, targets, None)
}

/// The tone-mapping feature.
pub struct ToneMappingFeature {
    local_cache: Vec<ToneMappingPipelineEntry>,
    current_pipeline: Option<RenderPipelineId>,
    pub output_format: TextureFormat,
    static_bg_built: bool,
    static_bg_has_lut: bool,
    last_uniforms_buffer_id: u64,
    last_lut_view_id: u64,
}

/// What the static bind group was last built from.
#[derive(Debug, Clone, Copy, PartialEq, Eq, Structural)]
pub struct ToneMapStaticState {
    pub built: bool,
    pub has_lut: bool,
    pub uniforms_buffer_id: u64,
    pub lut_view_id: u64,
}

impl ToneMappingFeature {
    pub closed spec fn wf(&self) -> bool {
        tm_keys_unique(self.local_cache@)
    }

    pub closed spec fn cached(&self, key: ToneMappingPipelineKey) -> Option<RenderPipelineId> {
        spec_tm_cached(self.local_cache@, key)
    }

    pub closed spec fn pipeline(&self) -> Option<RenderPipelineId> {
        self.current_pipeline
    }

    pub closed spec fn format(&self) -> TextureFormat {
        self.output_format
    }

    pub closed spec fn static_state(&self) -> ToneMapStaticState {
        ToneMapStaticState {
            built: self.static_bg_built,
            has_lut: self.static_bg_has_lut,
            uniforms_buffer_id: self.last_uniforms_buffer_id,
            lut_view_id: self.last_lut_view_id,
        }
    }

    /// Nothing cached or built; sRGB BGRA output.
    pub fn new() -> (r: Self)
        ensures
            r.wf(),
            r.pipeline() is None,
            r.format() == TextureFormat::Bgra8UnormSrgb,
            r.static_state() == (ToneMapStaticState {
                built: false,
                has_lut: false,
                uniforms_buffer_id: 0,
                lut_view_id: 0,
            }),
            forall|k: ToneMappingPipelineKey| r.cached(k) is None,
    {
        ToneMappingFeature {
            local_cache: Vec::new(),
            current_pipeline: None,
            output_format: TextureFormat::Bgra8UnormSrgb,
            static_bg_built: false,
            static_bg_has_lut: false,
            last_uniforms_buffer_id: 0,
            last_lut_view_id: 0,
        }
    }

    /// Starts preparing a frame that outputs `output_format`, with the LUT in
    /// state `lut` (`None` without a LUT): a LUT still loading keeps the
    /// previous setup once a pipeline exists; only a ready LUT is used.
    pub fn begin_prepare(&mut self, output_format: TextureFormat, lut: Option<LutResourceState>) -> (r: ToneMapPrepare)
        requires
            old(self).wf(),
        ensures
            final(self).wf(),
            final(self).format() == output_format,
            final(self).pipeline() == old(self).pipeline(),
            final(self).static_state() == old(self).static_state(),
            forall|k: ToneMappingPipelineKey| final(self).cached(k) == old(self).cached(k),
            r == (if lut == Some(LutResourceState::Pending) && old(self).pipeline() is Some {
                ToneMapPrepare::KeepPrevious
            } else {
                ToneMapPrepare::Continue { has_lut: lut == Some(LutResourceState::Ready) }
            }),
    {
        self.output_format = output_format;
        match lut {
            Some(LutResourceState::Ready) => ToneMapPrepare::Continue { has_lut: true },
            Some(LutResourceState::Pending) => {
                if self.current_pipeline.is_some() {
                    ToneMapPrepare::KeepPrevious
                } else {
                    ToneMapPrepare::Continue { has_lut: false }
                }
            },
            _ => ToneMapPrepare::Continue { has_lut: false },
        }
    }

    /// The pipeline key of `mode` for the current output format.
    pub fn pipeline_key(&self, mode: u32, has_lut: bool) -> (r: ToneMappingPipelineKey)
        ensures
            r == (ToneMappingPipelineKey { mode, output_format: self.format(), has_lut }),
    {
        ToneMappingPipelineKey { mode, output_format: self.output_format, has_lut }
    }

    /// The pipeline cached for `key`, if it was created before.
    pub fn cached_pipeline(&self, key: &ToneMappingPipelineKey) -> (r: Option<RenderPipelineId>)
        requires
            self.wf(),
        ensures
            r == self.cached(*key),
    {
        let mut i: usize = 0;
        while i < self.local_cache.len()
            invariant
                tm_keys_unique(self.local_cache@),
                i <= self.local_cache@.len(),
                forall|j: int| 0 <= j < i ==> #[trigger] self.local_cache@[j].key != *key,
            decreases self.local_cache@.len() - i,
        {
            if self.local_cache[i].key == *key {
                proof {
                    let s = self.local_cache@;
                    let c = choose|j: int| 0 <= j < s.len() && #[trigger] s[j].key == *key;
                    assert(s[i as int].key == *key);
                    assert(c == i);
                }
                return Some(self.local_cache[i].id);
            }
            i = i + 1;
        }
        None
    }

    /// Uses pipeline `id` for `key` from now on; the first pipeline given
    /// for a key is cached for it.
    pub fn set_pipeline(&mut self, key: ToneMappingPipelineKey, id: RenderPipelineId)
        requires
            old(self).wf(),
        ensures
            final(self).wf(),
            final(self).pipeline() == Some(id),
            final(self).format() == old(self).format(),
            final(self).static_state() == old(self).static_state(),
            final(self).cached(key) == (match old(self).cached(key) {
                Some(c) => Some(c),
                None => Some(id),
            }),
            forall|k: ToneMappingPipelineKey| k != key ==> final(self).cached(k) == old(self).cached(k),
    {
        if self.cached_pipeline(&key).is_none() {
            let ghost s0 = self.local_cache@;
            self.local_cache.push(ToneMappingPipelineEntry { key, id });
            proof {
                let s1 = self.local_cache@;
                assert(s1[s0.len() as int].key == key);
                assert forall|k: ToneMappingPipelineKey| k != key implies spec_tm_cached(s1, k) == spec_tm_cached(s0, k) by {
                    if exists|i: int| 0 <= i < s1.len() && #[trigger] s1[i].key == k {
                        let i = choose|i: int| 0 <= i < s1.len() && #[trigger] s1[i].key == k;
                        assert(s0[i].key == k);
                        let c0 = choose|i: int| 0 <= i < s0.len() && #[trigger] s0[i].key == k;
                        assert(s1[c0].key == k);
                    }
                    if exists|i: int| 0 <= i < s0.len() && #[trigger] s0[i].key == k {
                        let i = choose|i: int| 0 <= i < s0.len() && #[trigger] s0[i].key == k;
                        assert(s1[i].key == k);
                    }
                }
                assert forall|a: int, b: int|
                    0 <= a < s1.len() && 0 <= b < s1.len() && a != b implies #[trigger] s1[a].key
                        != #[trigger] s1[b].key by {
                    if a < s0.len() && b < s0.len() {
                        assert(s1[a] == s0[a] && s1[b] == s0[b]);
                    } else if a < s0.len() {
                        assert(s1[a] == s0[a]);
                    } else if b < s0.len() {
                        assert(s1[b] == s0[b]);
                    }
                }
                let c = choose|i: int| 0 <= i < s1.len() && #[trigger] s1[i].key == key;
                assert(c == s0.len());
            }
        }
        self.current_pipeline = Some(id);
    }

    /// The group-1 layout for a frame with or without the LUT.
    pub fn static_layout(has_lut: bool) -> (r: ToneMapStaticLayout)
        ensures
            r == (if has_lut { ToneMapStaticLayout::Lut } else { ToneMapStaticLayout::Base }),
    {
        if has_lut {
            ToneMapStaticLayout::Lut
        } else {
            ToneMapStaticLayout::Base
        }
    }

    /// Rebuilds (records) the static bind group when it does not exist, the
    /// uniform buffer was reallocated, the LUT came or went, or the LUT view
    /// changed; says whether it did. Without a uniform buffer nothing is
    /// built. A LUT whose view is unknown counts as view 0.
    pub fn refresh_static_bind_group(
        &mut self,
        uniforms_buffer_id: Option<u64>,
        has_lut: bool,
        lut_view_id: Option<u64>,
    ) -> (r: bool)
        requires
            old(self).wf(),
        ensures
            final(self).wf(),
            final(self).pipeline() == old(self).pipeline(),
            final(self).format() == old(self).format(),
            forall|k: ToneMappingPipelineKey| final(self).cached(k) == old(self).cached(k),
            ({
                let s = old(self).static_state();
                let lut_id: u64 = if has_lut {
                    match lut_view_id {
                        Some(v) => v,
                        None => 0,
                    }
                } else {
                    0
                };
                match uniforms_buffer_id {
                    None => !r && final(self).static_state() == s,
                    Some(buf) => {
                        &&& r == (!s.built || buf != s.uniforms_buffer_id || has_lut != s.has_lut || (has_lut
                            && lut_id != s.lut_view_id))
                        &&& final(self).static_state() == (if r {
                            ToneMapStaticState { built: true, has_lut, uniforms_buffer_id: buf, lut_view_id: lut_id }
                        } else {
                            s
                        })
                    },
                }
            }),
    {
        let buf = match uniforms_buffer_id {
            Some(b) => b,
            None => return false,
        };
        let lut_id: u64 = if has_lut {
            match lut_view_id {
                Some(v) => v,
                None => 0,
            }
        } else {
            0
        };
        let needs_rebuild = !self.static_bg_built || buf != self.last_uniforms_buffer_id || has_lut
            != self.static_bg_has_lut || (has_lut && lut_id != self.last_lut_view_id);
        if needs_rebuild {
            self.static_bg_built = true;
            self.static_bg_has_lut = has_lut;
            self.last_uniforms_buffer_id = buf;
            self.last_lut_view_id = lut_id;
        }
        needs_rebuild
    }

    /// The pass can be added to the graph: a pipeline and static bind group exist.
    pub fn is_prepared(&self) -> (r: bool)
        ensures
            r == (self.pipeline() is Some && self.static_state().built),
    {
        self.current_pipeline.is_some() && self.static_bg_built
    }
}

} // verus!
