//! Unified pipeline cache.
//!
//! The cache owns every render and compute pipeline in contiguous arrays
//! addressed by dense ids. Two levels of lookup lead to an id:
//!
//! - L1 fast keys (resource handles and version counters) for material
//!   geometry and shadow pipelines, compared field by field;
//! - L2 canonical keys (the full pipeline state), one hash-to-id map per key
//!   family. A miss builds the pipeline from the state the key describes and
//!   appends it.
use std::collections::HashMap;

use vstd::prelude::*;

use crate::format::TextureFormat;
use crate::pipeline::gpu_state::{Face, FrontFace, PrimitiveTopology, COLOR_WRITES_ALL};
use crate::pipeline::hashing::fx_hash_bytes;
use crate::pipeline::pipeline_key::{
    fx_hash_key, stencil_disabled, CacheKey, ColorTargetKey, ComputePipelineKey, DepthBiasKey,
    DepthStencilKey, FullscreenPipelineKey, GraphicsPipelineKey, MultisampleKey, PipelineFlags,
    SimpleGeometryPipelineKey, StencilStateKey, ALPHA_TO_COVERAGE, DEPTH_WRITE, SPECULAR_SPLIT,
};
use crate::pipeline::shader_defines::spec_set;
use crate::pipeline::shader_gen::ShaderCompilationOptions;

verus! {

broadcast use vstd::std_specs::hash::group_hash_axioms;

/// Handle of a cached render pipeline (its index in the render array).
#[derive(Debug, Clone, Copy, PartialEq, Eq, Structural, Hash)]
pub struct RenderPipelineId(pub u32);

/// Handle of a cached compute pipeline (its index in the compute array).
#[derive(Debug, Clone, Copy, PartialEq, Eq, Structural, Hash)]
pub struct ComputePipelineId(pub u32);

/// The full-state hash a key is cached under.
pub open spec fn key_hash<K: CacheKey>(key: &K) -> u64 {
    fx_hash_bytes(key.key_encoding())
}

/// The render-pipeline key families sharing the render array.
#[derive(Debug, Clone, Copy, PartialEq, Eq, Structural, Hash)]
pub enum RenderFamily {
    /// Material-driven scene geometry pipelines.
    Graphics,
    /// Fullscreen and post-processing pipelines.
    Fullscreen,
    /// Simplified geometry passes (prepass, shadow).
    SimpleGeometry,
}

// ─── Pipeline state ──────────────────────────────────────────────────────────

/// The fixed-function state a render pipeline is built with.
pub struct RenderPipelineState {
    pub color_targets: Vec<ColorTargetKey>,
    pub depth_stencil: Option<DepthStencilKey>,
    pub multisample: MultisampleKey,
    pub topology: PrimitiveTopology,
    pub front_face: FrontFace,
    pub cull_mode: Option<Face>,
}

/// Whether a flag's bits are all set.
pub open spec fn has_flag(flags: PipelineFlags, flag: u32) -> bool {
    flags.spec_bits() & flag == flag
}

/// The color target of a material pipeline: the key's format and blending,
/// every channel written.
pub open spec fn graphics_color_target(key: GraphicsPipelineKey) -> ColorTargetKey {
    ColorTargetKey { format: key.color_format, blend: key.blend_state, write_mask: COLOR_WRITES_ALL }
}

/// The depth state of a material pipeline: the key's depth format and
/// comparison, depth writes as the flags say, no stencil, no bias.
pub open spec fn graphics_depth_stencil(key: GraphicsPipelineKey) -> DepthStencilKey {
    DepthStencilKey {
        format: key.depth_format,
        depth_write_enabled: Some(has_flag(key.flags, DEPTH_WRITE)),
        depth_compare: Some(key.depth_compare),
        stencil: stencil_disabled(),
        bias: DepthBiasKey { constant: 0, slope_scale_bits: 0, clamp_bits: 0 },
    }
}

/// The state of a material geometry pipeline: one color target, a second
/// identical one when specular is split; depth as above; the key's sample
/// count with every mask bit and alpha-to-coverage as the flags say; the
/// key's primitive assembly.
pub open spec fn is_graphics_state(key: GraphicsPipelineKey, st: RenderPipelineState) -> bool {
    &&& st.color_targets@.len() == (if has_flag(key.flags, SPECULAR_SPLIT) {
        2int
    } else {
        1int
    })
    &&& forall|i: int|
        0 <= i < st.color_targets@.len() ==> #[trigger] st.color_targets@[i] == graphics_color_target(
            key,
        )
    &&& st.depth_stencil == Some(graphics_depth_stencil(key))
    &&& st.multisample == MultisampleKey {
        count: key.sample_count,
        mask: u64::MAX,
        alpha_to_coverage_enabled: has_flag(key.flags, ALPHA_TO_COVERAGE),
    }
    &&& st.topology == key.topology
    &&& st.front_face == key.front_face
    &&& st.cull_mode == key.cull_mode
}

/// A color target as handed to the GPU: the write mask keeps only the four
/// channel bits.
pub open spec fn truncated_target(t: ColorTargetKey) -> ColorTargetKey {
    ColorTargetKey { format: t.format, blend: t.blend, write_mask: t.write_mask & COLOR_WRITES_ALL }
}

/// The targets of a key, write masks truncated.
pub open spec fn targets_match(built: Seq<ColorTargetKey>, keyed: Seq<ColorTargetKey>) -> bool {
    &&& built.len() == keyed.len()
    &&& forall|i: int| 0 <= i < keyed.len() ==> #[trigger] built[i] == truncated_target(keyed[i])
}

/// The state of a fullscreen pipeline: the key's targets, depth state and
/// multisampling; a triangle list, counter-clockwise, no culling.
pub open spec fn is_fullscreen_state(key: FullscreenPipelineKey, st: RenderPipelineState) -> bool {
    &&& targets_match(st.color_targets@, key.color_targets@)
    &&& st.depth_stencil == key.depth_stencil
    &&& st.multisample == key.multisample
    &&& st.topology == PrimitiveTopology::TriangleList
    &&& st.front_face == FrontFace::Ccw
    &&& st.cull_mode == None::<Face>
}

/// The state of a simplified geometry pipeline: the key's targets and depth
/// state; the key's sample count with every mask bit and no
/// alpha-to-coverage; the key's primitive assembly.
pub open spec fn is_simple_geometry_state(
    key: SimpleGeometryPipelineKey,
    st: RenderPipelineState,
) -> bool {
    &&& targets_match(st.color_targets@, key.color_targets@)
    &&& st.depth_stencil == Some(key.depth_stencil)
    &&& st.multisample == MultisampleKey {
        count: key.sample_count,
        mask: u64::MAX,
        alpha_to_coverage_enabled: false,
    }
    &&& st.topology == key.topology
    &&& st.front_face == key.front_face
    &&& st.cull_mode == key.cull_mode
}

/// Whether `o` are the shader options of a material pipeline built from
/// `options` and the given code.
pub open spec fn is_graphics_options(
    options: ShaderCompilationOptions,
    vertex_input_code: Seq<char>,
    global_binding: Seq<char>,
    material_binding: Seq<char>,
    object_binding: Seq<char>,
    clustered_lighting_structs: Seq<char>,
    o: ShaderCompilationOptions,
) -> bool {
    &&& o.wf()
    &&& o.defines.view() == options.defines.view()
    &&& o.code_blocks.view() == graphics_code_blocks(
        options.code_blocks.view(),
        vertex_input_code,
        graphics_binding_code(global_binding, material_binding, object_binding),
        clustered_lighting_structs,
    )
}

/// The pipeline state a material geometry key describes.
pub fn graphics_pipeline_state(key: &GraphicsPipelineKey) -> (r: RenderPipelineState)
    ensures
        is_graphics_state(*key, r),
{
    let target = ColorTargetKey {
        format: key.color_format,
        blend: key.blend_state,
        write_mask: COLOR_WRITES_ALL,
    };
    let mut color_targets: Vec<ColorTargetKey> = Vec::new();
    color_targets.push(target);
    if key.flags.contains(SPECULAR_SPLIT) {
        color_targets.push(target);
    }
    let depth_stencil = DepthStencilKey {
        format: key.depth_format,
        depth_write_enabled: Some(key.flags.contains(DEPTH_WRITE)),
        depth_compare: Some(key.depth_compare),
        stencil: StencilStateKey::disabled(),
        bias: DepthBiasKey::none(),
    };
    RenderPipelineState {
        color_targets,
        depth_stencil: Some(depth_stencil),
        multisample: MultisampleKey {
            count: key.sample_count,
            mask: u64::MAX,
            alpha_to_coverage_enabled: key.flags.contains(ALPHA_TO_COVERAGE),
        },
        topology: key.topology,
        front_face: key.front_face,
        cull_mode: key.cull_mode,
    }
}

fn truncate_targets(targets: &Vec<ColorTargetKey>) -> (r: Vec<ColorTargetKey>)
    ensures
        targets_match(r@, targets@),
{
    let mut out: Vec<ColorTargetKey> = Vec::new();
    let mut i: usize = 0;
    while i < targets.len()
        invariant
            i <= targets@.len(),
            out@.len() == i,
            forall|j: int| 0 <= j < i ==> #[trigger] out@[j] == truncated_target(targets@[j]),
        decreases targets@.len() - i,
    {
        let t = targets[i];
        out.push(
            ColorTargetKey { format: t.format, blend: t.blend, write_mask: t.write_mask & COLOR_WRITES_ALL },
        );
        i = i + 1;
    }
    out
}

/// The pipeline state a fullscreen key describes.
pub fn fullscreen_pipeline_state(key: &FullscreenPipelineKey) -> (r: RenderPipelineState)
    ensures
        is_fullscreen_state(*key, r),
{
    RenderPipelineState {
        color_targets: truncate_targets(&key.color_targets),
        depth_stencil: key.depth_stencil,
        multisample: key.multisample,
        topology: PrimitiveTopology::TriangleList,
        front_face: FrontFace::Ccw,
        cull_mode: None,
    }
}

/// The pipeline state a simplified geometry key describes.
pub fn simple_geometry_pipeline_state(key: &SimpleGeometryPipelineKey) -> (r: RenderPipelineState)
    ensures
        is_simple_geometry_state(*key, r),
{
    RenderPipelineState {
        color_targets: truncate_targets(&key.color_targets),
        depth_stencil: Some(key.depth_stencil),
        multisample: MultisampleKey {
            count: key.sample_count,
            mask: u64::MAX,
            alpha_to_coverage_enabled: false,
        },
        topology: key.topology,
        front_face: key.front_face,
        cull_mode: key.cull_mode,
    }
}

// ─── L1 fast keys ────────────────────────────────────────────────────────────

/// L1 key of a material geometry pipeline: resource handles, their version
/// counters and the variant bits that select a pipeline.
#[derive(Debug, Clone, Copy, PartialEq, Eq, Structural, Hash)]
pub struct FastPipelineKey {
    pub material_handle: u64,
    pub material_version: u64,
    pub geometry_handle: u64,
    pub geometry_version: u64,
    pub instance_variants: u32,
    pub global_state_id: u32,
    /// Scene feature bits.
    pub scene_variants: u32,
    pub taa_enabled: bool,
    pub pipeline_settings_version: u64,
}

/// L1 key of a shadow (depth-only) pipeline.
#[derive(Debug, Clone, Copy, PartialEq, Eq, Structural, Hash)]
pub struct FastShadowPipelineKey {
    pub material_handle: u64,
    pub material_version: u64,
    pub geometry_handle: u64,
    pub geometry_version: u64,
    pub instance_variants: u32,
    pub pipeline_settings_version: u64,
}

/// A key compared field by field.
pub trait FastKey: Sized + Copy {
    /// Whether the two keys are equal.
    fn same(&self, other: &Self) -> (r: bool)
        ensures
            r == (*self == *other),
    ;
}

impl FastKey for FastPipelineKey {
    fn same(&self, other: &Self) -> (r: bool) {
        *self == *other
    }
}

impl FastKey for u32 {
    fn same(&self, other: &Self) -> (r: bool) {
        *self == *other
    }
}

impl FastKey for FastShadowPipelineKey {
    fn same(&self, other: &Self) -> (r: bool) {
        *self == *other
    }
}

/// No key occurs twice.
pub open spec fn fast_keys_distinct<K>(s: Seq<(K, RenderPipelineId)>) -> bool {
    forall|i: int, j: int|
        0 <= i < s.len() && 0 <= j < s.len() && i != j ==> #[trigger] s[i].0 != #[trigger] s[j].0
}

pub open spec fn fast_has<K>(s: Seq<(K, RenderPipelineId)>, k: K) -> bool {
    exists|i: int| 0 <= i < s.len() && #[trigger] s[i].0 == k
}

pub open spec fn fast_index<K>(s: Seq<(K, RenderPipelineId)>, k: K) -> int {
    choose|i: int| 0 <= i < s.len() && #[trigger] s[i].0 == k
}

/// The entries as a map from key to id.
pub open spec fn fast_entries_map<K>(s: Seq<(K, RenderPipelineId)>) -> Map<K, RenderPipelineId> {
    Map::new(|k: K| fast_has(s, k), |k: K| s[fast_index(s, k)].1)
}

proof fn lemma_fast_map_at<K>(s: Seq<(K, RenderPipelineId)>, i: int)
    requires
        fast_keys_distinct(s),
        0 <= i < s.len(),
    ensures
        fast_entries_map(s).contains_key(s[i].0),
        fast_entries_map(s)[s[i].0] == s[i].1,
{
    assert(fast_has(s, s[i].0));
    let j = fast_index(s, s[i].0);
    assert(s[j].0 == s[i].0);
}

/// A table from keys compared field by field to pipeline ids, each key at
/// most once (the L1 tables, and per-variant pipeline tables of features).
pub struct FastLookup<K> {
    entries: Vec<(K, RenderPipelineId)>,
}

impl<K: FastKey> FastLookup<K> {
    /// The table as a map.
    pub closed spec fn view(&self) -> Map<K, RenderPipelineId> {
        fast_entries_map(self.entries@)
    }

    /// Keys are unique.
    pub closed spec fn wf(&self) -> bool {
        fast_keys_distinct(self.entries@)
    }

    /// An empty table.
    pub fn new() -> (r: Self)
        ensures
            r.wf(),
            r.view() == Map::<K, RenderPipelineId>::empty(),
    {
        let r = FastLookup { entries: Vec::new() };
        assert(r.view() =~= Map::<K, RenderPipelineId>::empty());
        r
    }

    fn find(&self, key: &K) -> (r: Option<usize>)
        requires
            self.wf(),
        ensures
            r matches Some(i) ==> i < self.entries@.len() && self.entries@[i as int].0 == *key,
            r is None ==> !self.view().contains_key(*key),
    {
        let mut i: usize = 0;
        while i < self.entries.len()
            invariant
                i <= self.entries@.len(),
                forall|j: int| 0 <= j < i ==> self.entries@[j].0 != *key,
            decreases self.entries@.len() - i,
        {
            if self.entries[i].0.same(key) {
                return Some(i);
            }
            i = i + 1;
        }
        None
    }

    /// The id stored under `key`, if any.
    pub fn get(&self, key: K) -> (r: Option<RenderPipelineId>)
        requires
            self.wf(),
        ensures
            r == (if self.view().contains_key(key) {
                Some(self.view()[key])
            } else {
                None
            }),
    {
        match self.find(&key) {
            Some(i) => {
                proof {
                    lemma_fast_map_at(self.entries@, i as int);
                }
                Some(self.entries[i].1)
            },
            None => None,
        }
    }

    /// Stores `id` under `key`, replacing what was stored there.
    pub fn insert(&mut self, key: K, id: RenderPipelineId)
        requires
            old(self).wf(),
        ensures
            final(self).wf(),
            final(self).view() == old(self).view().insert(key, id),
    {
        let ghost s0 = self.entries@;
        match self.find(&key) {
            Some(i) => {
                self.entries.set(i, (key, id));
                let ghost s1 = self.entries@;
                proof {
                    assert(s1 == s0.update(i as int, (key, id)));
                    assert forall|a: int, b: int|
                        0 <= a < s1.len() && 0 <= b < s1.len() && a != b implies #[trigger] s1[a].0
                        != #[trigger] s1[b].0 by {
                        assert(s1[a].0 == s0[a].0);
                        assert(s1[b].0 == s0[b].0);
                    }
                    lemma_fast_map_at(s1, i as int);
                    let m0 = fast_entries_map(s0);
                    let m1 = fast_entries_map(s1);
                    assert forall|k: K| #[trigger] m1.contains_key(k) == m0.insert(key, id).contains_key(k) by {
                        if m1.contains_key(k) {
                            let j = fast_index(s1, k);
                            assert(s0[j].0 == k);
                        }
                        if m0.contains_key(k) {
                            let j = fast_index(s0, k);
                            assert(s1[j].0 == k);
                        }
                    }
                    assert forall|k: K| m1.contains_key(k) && k != key implies #[trigger] m1[k] == m0[k] by {
                        let j = fast_index(s1, k);
                        assert(s0[j] == s1[j]);
                        lemma_fast_map_at(s0, j);
                        lemma_fast_map_at(s1, j);
                    }
                    assert(m1 =~= m0.insert(key, id));
                }
            },
            None => {
                self.entries.push((key, id));
                let ghost s1 = self.entries@;
                let ghost n = s0.len() as int;
                proof {
                    assert(!fast_has(s0, key));
                    assert forall|a: int, b: int|
                        0 <= a < s1.len() && 0 <= b < s1.len() && a != b implies #[trigger] s1[a].0
                        != #[trigger] s1[b].0 by {
                        if a == n {
                            assert(s0[b].0 == s1[b].0);
                        } else if b == n {
                            assert(s0[a].0 == s1[a].0);
                        } else {
                            assert(s0[a] == s1[a] && s0[b] == s1[b]);
                        }
                    }
                    lemma_fast_map_at(s1, n);
                    let m0 = fast_entries_map(s0);
                    let m1 = fast_entries_map(s1);
                    assert forall|k: K| #[trigger] m1.contains_key(k) == m0.insert(key, id).contains_key(k) by {
                        if m1.contains_key(k) && k != key {
                            let j = fast_index(s1, k);
                            assert(s0[j].0 == k);
                        }
                        if m0.contains_key(k) {
                            let j = fast_index(s0, k);
                            assert(s1[j].0 == k);
                        }
                    }
                    assert forall|k: K| m1.contains_key(k) && k != key implies #[trigger] m1[k] == m0[k] by {
                        let j = fast_index(s1, k);
                        assert(j != n);
                        assert(s0[j] == s1[j]);
                        lemma_fast_map_at(s0, j);
                        lemma_fast_map_at(s1, j);
                    }
                    assert(m1 =~= m0.insert(key, id));
                }
            },
        }
    }
}

// ─── Shader options of material pipelines ───────────────────────────────────

/// The binding declarations of a material pipeline: global, material and
/// object bindings, one per line.
pub open spec fn graphics_binding_code(global: Seq<char>, material: Seq<char>, object: Seq<char>) -> Seq<char> {
    global + "\n"@ + material + "\n"@ + object
}

/// The code blocks of a material pipeline's shader: the caller's, then the
/// vertex input code, the binding code and the clustered-lighting structs.
pub open spec fn graphics_code_blocks(
    blocks: Seq<(Seq<char>, Seq<char>)>,
    vertex_input_code: Seq<char>,
    binding_code: Seq<char>,
    clustered_lighting_structs: Seq<char>,
) -> Seq<(Seq<char>, Seq<char>)> {
    spec_set(
        spec_set(spec_set(blocks, "vertex_input_code"@, vertex_input_code), "binding_code"@, binding_code),
        "clustered_lighting_structs"@,
        clustered_lighting_structs,
    )
}

/// The compilation options of a material pipeline's shader: `options` with
/// the vertex input code, the binding code and the clustered-lighting
/// structs injected.
pub fn graphics_shader_options(
    options: &ShaderCompilationOptions,
    vertex_input_code: &str,
    global_binding: &str,
    material_binding: &str,
    object_binding: &str,
    clustered_lighting_structs: &str,
) -> (r: ShaderCompilationOptions)
    requires
        options.wf(),
    ensures
        r.wf(),
        r.defines.view() == options.defines.view(),
        r.code_blocks.view() == graphics_code_blocks(
            options.code_blocks.view(),
            vertex_input_code@,
            graphics_binding_code(global_binding@, material_binding@, object_binding@),
            clustered_lighting_structs@,
        ),
{
    let mut binding_code = String::from_str(global_binding);
    binding_code.append("\n");
    binding_code.append(material_binding);
    binding_code.append("\n");
    binding_code.append(object_binding);
    let mut opts = options.clone();
    opts.inject_code("vertex_input_code", vertex_input_code);
    opts.inject_code("binding_code", binding_code.as_str());
    opts.inject_code("clustered_lighting_structs", clustered_lighting_structs);
    opts
}

// ─── Pipeline cache ──────────────────────────────────────────────────────────

/// Registered bind-group layouts, per pipeline.
pub open spec fn layouts_view<L>(s: Seq<Option<Vec<L>>>) -> Seq<Option<Seq<L>>> {
    s.map_values(
        |o: Option<Vec<L>>|
            match o {
                Some(v) => Some(v@),
                None => None,
            },
    )
}

/// `s`, extended with empty entries so that `idx` is a valid position.
pub open spec fn padded_to<L>(s: Seq<Option<Seq<L>>>, idx: int) -> Seq<Option<Seq<L>>> {
    if idx < s.len() {
        s
    } else {
        s + Seq::new((idx + 1 - s.len()) as nat, |i: int| None::<Seq<L>>)
    }
}

/// Central pipeline storage and deduplication cache. `R` and `C` are the
/// render and compute pipeline objects, `L` a bind-group layout.
pub struct PipelineCache<R, C, L> {
    render_pipelines: Vec<R>,
    compute_pipelines: Vec<C>,
    render_layouts: Vec<Option<Vec<L>>>,
    compute_layouts: Vec<Option<Vec<L>>>,
    graphics_lookup: HashMap<u64, u32>,
    fullscreen_lookup: HashMap<u64, u32>,
    simple_geometry_lookup: HashMap<u64, u32>,
    compute_lookup: HashMap<u64, u32>,
    fast_cache: FastLookup<FastPipelineKey>,
    fast_shadow_cache: FastLookup<FastShadowPipelineKey>,
}

impl<R, C, L> PipelineCache<R, C, L> {
    /// The render pipelines, by id.
    pub closed spec fn render_pipelines(&self) -> Seq<R> {
        self.render_pipelines@
    }

    /// The compute pipelines, by id.
    pub closed spec fn compute_pipelines(&self) -> Seq<C> {
        self.compute_pipelines@
    }

    /// Layouts registered per render pipeline id.
    pub closed spec fn render_layouts(&self) -> Seq<Option<Seq<L>>> {
        layouts_view(self.render_layouts@)
    }

    /// Layouts registered per compute pipeline id.
    pub closed spec fn compute_layouts(&self) -> Seq<Option<Seq<L>>> {
        layouts_view(self.compute_layouts@)
    }

    /// Number of render pipelines.
    pub open spec fn render_count(&self) -> nat {
        self.render_pipelines().len()
    }

    /// Number of compute pipelines.
    pub open spec fn compute_count(&self) -> nat {
        self.compute_pipelines().len()
    }

    /// The hash-to-id map of a render family.
    pub closed spec fn render_map(&self, f: RenderFamily) -> Map<u64, u32> {
        match f {
            RenderFamily::Graphics => self.graphics_lookup@,
            RenderFamily::Fullscreen => self.fullscreen_lookup@,
            RenderFamily::SimpleGeometry => self.simple_geometry_lookup@,
        }
    }

    /// The hash-to-id map of compute pipelines.
    pub closed spec fn compute_map(&self) -> Map<u64, u32> {
        self.compute_lookup@
    }

    /// The L1 table of material geometry pipelines.
    pub closed spec fn fast_map(&self) -> Map<FastPipelineKey, RenderPipelineId> {
        self.fast_cache.view()
    }

    /// The L1 table of shadow pipelines.
    pub closed spec fn fast_shadow_map(&self) -> Map<FastShadowPipelineKey, RenderPipelineId> {
        self.fast_shadow_cache.view()
    }

    /// Every stored id names a pipeline, and no two keys (of any family)
    /// share an id.
    pub open spec fn ids_wf(&self) -> bool {
        &&& forall|f: RenderFamily, h: u64| #[trigger] self.render_map(f).contains_key(h)
            ==> self.render_map(f)[h] < self.render_count()
        &&& forall|f1: RenderFamily, h1: u64, f2: RenderFamily, h2: u64|
            #[trigger] self.render_map(f1).contains_key(h1) && #[trigger] self.render_map(f2).contains_key(h2)
                && (f1 != f2 || h1 != h2) ==> self.render_map(f1)[h1] != self.render_map(f2)[h2]
        &&& forall|h: u64| #[trigger] self.compute_map().contains_key(h) ==> self.compute_map()[h]
            < self.compute_count()
        &&& forall|h1: u64, h2: u64|
            #[trigger] self.compute_map().contains_key(h1) && #[trigger] self.compute_map().contains_key(h2)
                && h1 != h2 ==> self.compute_map()[h1] != self.compute_map()[h2]
    }

    /// The cache's invariant.
    pub closed spec fn wf(&self) -> bool {
        &&& self.ids_wf()
        &&& self.fast_cache.wf()
        &&& self.fast_shadow_cache.wf()
    }

    /// The render side, layouts included, is as in `other`.
    pub open spec fn same_render(&self, other: &Self) -> bool {
        &&& self.render_pipelines() == other.render_pipelines()
        &&& self.render_layouts() == other.render_layouts()
        &&& forall|f: RenderFamily| #[trigger] self.render_map(f) == other.render_map(f)
    }

    /// The compute side, layouts included, is as in `other`.
    pub open spec fn same_compute(&self, other: &Self) -> bool {
        &&& self.compute_pipelines() == other.compute_pipelines()
        &&& self.compute_layouts() == other.compute_layouts()
        &&& self.compute_map() == other.compute_map()
    }

    /// Both L1 tables are as in `other`.
    pub open spec fn same_fast(&self, other: &Self) -> bool {
        &&& self.fast_map() == other.fast_map()
        &&& self.fast_shadow_map() == other.fast_shadow_map()
    }

    /// `self` is `old` with one render pipeline appended, recorded in
    /// `family` under `hash` with the new id, its layouts unregistered.
    pub open spec fn render_appended(&self, old: &Self, family: RenderFamily, hash: u64) -> bool {
        &&& self.render_pipelines().drop_last() == old.render_pipelines()
        &&& self.render_count() == old.render_count() + 1
        &&& self.render_layouts() == old.render_layouts().push(None)
        &&& self.render_map(family) == old.render_map(family).insert(hash, old.render_count() as u32)
        &&& forall|f: RenderFamily| f != family ==> #[trigger] self.render_map(f) == old.render_map(f)
    }

    proof fn lemma_ids_frame(a: &Self, b: &Self)
        requires
            a.ids_wf(),
            forall|f: RenderFamily| #[trigger] b.render_map(f) == a.render_map(f),
            b.render_count() == a.render_count(),
            b.compute_map() == a.compute_map(),
            b.compute_count() == a.compute_count(),
        ensures
            b.ids_wf(),
    {
        assert forall|f: RenderFamily, h: u64| #[trigger] b.render_map(f).contains_key(h)
            implies b.render_map(f)[h] < b.render_count() by {
            assert(a.render_map(f).contains_key(h));
        }
        assert forall|f1: RenderFamily, h1: u64, f2: RenderFamily, h2: u64|
            #[trigger] b.render_map(f1).contains_key(h1) && #[trigger] b.render_map(f2).contains_key(h2)
                && (f1 != f2 || h1 != h2) implies b.render_map(f1)[h1] != b.render_map(f2)[h2] by {
            assert(a.render_map(f1).contains_key(h1));
            assert(a.render_map(f2).contains_key(h2));
        }
    }

    /// An empty cache.
    pub fn new() -> (r: Self)
        ensures
            r.wf(),
            r.render_pipelines() == Seq::<R>::empty(),
            r.compute_pipelines() == Seq::<C>::empty(),
            r.render_layouts() == Seq::<Option<Seq<L>>>::empty(),
            r.compute_layouts() == Seq::<Option<Seq<L>>>::empty(),
            forall|f: RenderFamily| #[trigger] r.render_map(f) == Map::<u64, u32>::empty(),
            r.compute_map() == Map::<u64, u32>::empty(),
            r.fast_map() == Map::<FastPipelineKey, RenderPipelineId>::empty(),
            r.fast_shadow_map() == Map::<FastShadowPipelineKey, RenderPipelineId>::empty(),
    {
        let r = PipelineCache {
            render_pipelines: Vec::new(),
            compute_pipelines: Vec::new(),
            render_layouts: Vec::new(),
            compute_layouts: Vec::new(),
            graphics_lookup: HashMap::new(),
            fullscreen_lookup: HashMap::new(),
            simple_geometry_lookup: HashMap::new(),
            compute_lookup: HashMap::new(),
            fast_cache: FastLookup::new(),
            fast_shadow_cache: FastLookup::new(),
        };
        assert(r.render_layouts() =~= Seq::<Option<Seq<L>>>::empty());
        assert(r.compute_layouts() =~= Seq::<Option<Seq<L>>>::empty());
        assert forall|f: RenderFamily| #[trigger] r.render_map(f) == Map::<u64, u32>::empty() by {
            match f {
                RenderFamily::Graphics => {},
                RenderFamily::Fullscreen => {},
                RenderFamily::SimpleGeometry => {},
            }
        }
        r
    }

    /// The render pipeline with the given id.
    pub fn get_render_pipeline(&self, id: RenderPipelineId) -> (r: &R)
        requires
            id.0 < self.render_count(),
        ensures
            *r == self.render_pipelines()[id.0 as int],
    {
        &self.render_pipelines[id.0 as usize]
    }

    /// The compute pipeline with the given id.
    pub fn get_compute_pipeline(&self, id: ComputePipelineId) -> (r: &C)
        requires
            id.0 < self.compute_count(),
        ensures
            *r == self.compute_pipelines()[id.0 as int],
    {
        &self.compute_pipelines[id.0 as usize]
    }

    /// Associates bind-group layouts with a render pipeline id, growing the
    /// layout table with empty entries if the id lies beyond it.
    pub fn register_render_layouts(&mut self, id: RenderPipelineId, layouts: Vec<L>)
        requires
            old(self).wf(),
        ensures
            final(self).wf(),
            final(self).render_layouts() == padded_to(old(self).render_layouts(), id.0 as int).update(
                id.0 as int,
                Some(layouts@),
            ),
            final(self).render_pipelines() == old(self).render_pipelines(),
            forall|f: RenderFamily| #[trigger] final(self).render_map(f) == old(self).render_map(f),
            final(self).same_compute(old(self)),
            final(self).same_fast(old(self)),
    {
        let idx = id.0 as usize;
        let ghost v0 = self.render_layouts();
        let mut table: Vec<Option<Vec<L>>> = Vec::new();
        std::mem::swap(&mut table, &mut self.render_layouts);
        let ghost raw0 = table@;
        while table.len() <= idx
            invariant
                raw0.len() <= table@.len(),
                raw0.len() <= idx ==> table@.len() <= idx + 1,
                raw0.len() > idx ==> table@ == raw0,
                forall|i: int| 0 <= i < raw0.len() ==> #[trigger] table@[i] == raw0[i],
                forall|i: int| raw0.len() <= i < table@.len() ==> #[trigger] table@[i] is None,
            decreases idx + 1 - table@.len(),
        {
            table.push(None);
        }
        table.set(idx, Some(layouts));
        self.render_layouts = table;
        proof {
            assert(v0 == layouts_view(raw0));
            assert(self.render_layouts() =~= padded_to(v0, id.0 as int).update(id.0 as int, Some(layouts@)));
            assert forall|f: RenderFamily| #[trigger] self.render_map(f) == old(self).render_map(f) by {
                match f {
                    RenderFamily::Graphics => {},
                    RenderFamily::Fullscreen => {},
                    RenderFamily::SimpleGeometry => {},
                }
            }
            assert(self.compute_map() == old(self).compute_map());
            assert(self.compute_pipelines() == old(self).compute_pipelines());
            assert(self.render_count() == old(self).render_count());
            assert(self.fast_cache.wf());
            assert(self.fast_shadow_cache.wf());
            assert(self.ids_wf());
        }
    }

    /// Associates bind-group layouts with a compute pipeline id, growing the
    /// layout table with empty entries if the id lies beyond it.
    pub fn register_compute_layouts(&mut self, id: ComputePipelineId, layouts: Vec<L>)
        requires
            old(self).wf(),
        ensures
            final(self).wf(),
            final(self).compute_layouts() == padded_to(old(self).compute_layouts(), id.0 as int).update(
                id.0 as int,
                Some(layouts@),
            ),
            final(self).compute_pipelines() == old(self).compute_pipelines(),
            final(self).compute_map() == old(self).compute_map(),
            final(self).same_render(old(self)),
            final(self).same_fast(old(self)),
    {
        let idx = id.0 as usize;
        let ghost v0 = self.compute_layouts();
        let mut table: Vec<Option<Vec<L>>> = Vec::new();
        std::mem::swap(&mut table, &mut self.compute_layouts);
        let ghost raw0 = table@;
        while table.len() <= idx
            invariant
                raw0.len() <= table@.len(),
                raw0.len() <= idx ==> table@.len() <= idx + 1,
                raw0.len() > idx ==> table@ == raw0,
                forall|i: int| 0 <= i < raw0.len() ==> #[trigger] table@[i] == raw0[i],
                forall|i: int| raw0.len() <= i < table@.len() ==> #[trigger] table@[i] is None,
            decreases idx + 1 - table@.len(),
        {
            table.push(None);
        }
        table.set(idx, Some(layouts));
        self.compute_layouts = table;
        proof {
            assert(v0 == layouts_view(raw0));
            assert(self.compute_layouts() =~= padded_to(v0, id.0 as int).update(id.0 as int, Some(layouts@)));
            assert forall|f: RenderFamily| #[trigger] self.render_map(f) == old(self).render_map(f) by {
                match f {
                    RenderFamily::Graphics => {},
                    RenderFamily::Fullscreen => {},
                    RenderFamily::SimpleGeometry => {},
                }
            }
            assert(self.compute_map() == old(self).compute_map());
            assert(self.compute_pipelines() == old(self).compute_pipelines());
            assert(self.render_count() == old(self).render_count());
            assert(self.fast_cache.wf());
            assert(self.fast_shadow_cache.wf());
            assert(self.ids_wf());
        }
    }

    /// A bind-group layout registered for a render pipeline.
    pub fn get_tracked_layout(&self, id: RenderPipelineId, group_index: usize) -> (r: &L)
        requires
            id.0 < self.render_layouts().len(),
            self.render_layouts()[id.0 as int] is Some,
            group_index < self.render_layouts()[id.0 as int]->0.len(),
        ensures
            *r == self.render_layouts()[id.0 as int]->0[group_index as int],
    {
        match &self.render_layouts[id.0 as usize] {
            Some(v) => &v[group_index],
            None => {
                proof {
                    assert(self.render_layouts()[id.0 as int] is None);
                }
                &self.render_layouts[id.0 as usize].as_ref().unwrap()[group_index]
            },
        }
    }

    /// A bind-group layout registered for a compute pipeline.
    pub fn get_tracked_compute_layout(&self, id: ComputePipelineId, group_index: usize) -> (r: &L)
        requires
            id.0 < self.compute_layouts().len(),
            self.compute_layouts()[id.0 as int] is Some,
            group_index < self.compute_layouts()[id.0 as int]->0.len(),
        ensures
            *r == self.compute_layouts()[id.0 as int]->0[group_index as int],
    {
        match &self.compute_layouts[id.0 as usize] {
            Some(v) => &v[group_index],
            None => {
                proof {
                    assert(self.compute_layouts()[id.0 as int] is None);
                }
                &self.compute_layouts[id.0 as usize].as_ref().unwrap()[group_index]
            },
        }
    }

    /// Clears every pipeline, every lookup, both L1 tables and the layouts
    /// registered per pipeline, which stay parallel to the pipelines: a
    /// pipeline built after the clear has no layouts until they are
    /// registered for it.
    pub fn clear(&mut self)
        ensures
            final(self).wf(),
            final(self).render_pipelines() == Seq::<R>::empty(),
            final(self).compute_pipelines() == Seq::<C>::empty(),
            final(self).render_layouts() == Seq::<Option<Seq<L>>>::empty(),
            final(self).compute_layouts() == Seq::<Option<Seq<L>>>::empty(),
            forall|f: RenderFamily| #[trigger] final(self).render_map(f) == Map::<u64, u32>::empty(),
            final(self).compute_map() == Map::<u64, u32>::empty(),
            final(self).fast_map() == Map::<FastPipelineKey, RenderPipelineId>::empty(),
            final(self).fast_shadow_map() == Map::<FastShadowPipelineKey, RenderPipelineId>::empty(),
    {
        self.render_pipelines.clear();
        self.compute_pipelines.clear();
        self.render_layouts.clear();
        self.compute_layouts.clear();
        self.graphics_lookup.clear();
        self.fullscreen_lookup.clear();
        self.simple_geometry_lookup.clear();
        self.compute_lookup.clear();
        self.fast_cache = FastLookup::new();
        self.fast_shadow_cache = FastLookup::new();
        proof {
            assert forall|f: RenderFamily| #[trigger] self.render_map(f) == Map::<u64, u32>::empty() by {
                match f {
                    RenderFamily::Graphics => {},
                    RenderFamily::Fullscreen => {},
                    RenderFamily::SimpleGeometry => {},
                }
            }
            assert(self.render_layouts() =~= Seq::<Option<Seq<L>>>::empty());
            assert(self.compute_layouts() =~= Seq::<Option<Seq<L>>>::empty());
            assert(self.ids_wf());
        }
    }

    /// The pipeline id stored under an L1 material key, if any.
    pub fn get_pipeline_fast(&self, fast_key: FastPipelineKey) -> (r: Option<RenderPipelineId>)
        requires
            self.wf(),
        ensures
            r == (if self.fast_map().contains_key(fast_key) {
                Some(self.fast_map()[fast_key])
            } else {
                None
            }),
    {
        self.fast_cache.get(fast_key)
    }

    /// Stores a pipeline id under an L1 material key.
    pub fn insert_pipeline_fast(&mut self, fast_key: FastPipelineKey, id: RenderPipelineId)
        requires
            old(self).wf(),
        ensures
            final(self).wf(),
            final(self).fast_map() == old(self).fast_map().insert(fast_key, id),
            final(self).fast_shadow_map() == old(self).fast_shadow_map(),
            final(self).same_render(old(self)),
            final(self).same_compute(old(self)),
    {
        self.fast_cache.insert(fast_key, id);
        proof {
            assert forall|f: RenderFamily| #[trigger] self.render_map(f) == old(self).render_map(f) by {
                match f {
                    RenderFamily::Graphics => {},
                    RenderFamily::Fullscreen => {},
                    RenderFamily::SimpleGeometry => {},
                }
            }
            Self::lemma_ids_frame(old(self), self);
        }
    }

    /// The pipeline id stored under an L1 shadow key, if any.
    pub fn get_shadow_pipeline_fast(&self, fast_key: FastShadowPipelineKey) -> (r: Option<RenderPipelineId>)
        requires
            self.wf(),
        ensures
            r == (if self.fast_shadow_map().contains_key(fast_key) {
                Some(self.fast_shadow_map()[fast_key])
            } else {
                None
            }),
    {
        self.fast_shadow_cache.get(fast_key)
    }

    /// Stores a pipeline id under an L1 shadow key.
    pub fn insert_shadow_pipeline_fast(&mut self, fast_key: FastShadowPipelineKey, id: RenderPipelineId)
        requires
            old(self).wf(),
        ensures
            final(self).wf(),
            final(self).fast_shadow_map() == old(self).fast_shadow_map().insert(fast_key, id),
            final(self).fast_map() == old(self).fast_map(),
            final(self).same_render(old(self)),
            final(self).same_compute(old(self)),
    {
        self.fast_shadow_cache.insert(fast_key, id);
        proof {
            assert forall|f: RenderFamily| #[trigger] self.render_map(f) == old(self).render_map(f) by {
                match f {
                    RenderFamily::Graphics => {},
                    RenderFamily::Fullscreen => {},
                    RenderFamily::SimpleGeometry => {},
                }
            }
            Self::lemma_ids_frame(old(self), self);
        }
    }

    fn render_get(&self, family: RenderFamily, hash: u64) -> (r: Option<u32>)
        ensures
            r matches Some(id) ==> self.render_map(family).contains_key(hash) && self.render_map(
                family,
            )[hash] == id,
            r is None ==> !self.render_map(family).contains_key(hash),
    {
        let found = match family {
            RenderFamily::Graphics => self.graphics_lookup.get(&hash),
            RenderFamily::Fullscreen => self.fullscreen_lookup.get(&hash),
            RenderFamily::SimpleGeometry => self.simple_geometry_lookup.get(&hash),
        };
        match found {
            Some(id) => Some(*id),
            None => None,
        }
    }

    /// Appends a render pipeline and records its new id under `hash`.
    fn append_render(&mut self, family: RenderFamily, hash: u64, pipeline: R) -> (id: RenderPipelineId)
        requires
            old(self).wf(),
            old(self).render_count() < u32::MAX,
            !old(self).render_map(family).contains_key(hash),
        ensures
            final(self).wf(),
            id.0 == old(self).render_count(),
            final(self).render_appended(old(self), family, hash),
            final(self).render_pipelines().last() == pipeline,
            final(self).same_compute(old(self)),
            final(self).same_fast(old(self)),
    {
        let id = self.render_pipelines.len() as u32;
        self.render_pipelines.push(pipeline);
        self.render_layouts.push(None);
        match family {
            RenderFamily::Graphics => {
                self.graphics_lookup.insert(hash, id);
            },
            RenderFamily::Fullscreen => {
                self.fullscreen_lookup.insert(hash, id);
            },
            RenderFamily::SimpleGeometry => {
                self.simple_geometry_lookup.insert(hash, id);
            },
        }
        proof {
            assert(self.render_layouts() =~= old(self).render_layouts().push(None));
            assert(self.render_pipelines().drop_last() =~= old(self).render_pipelines());
            assert forall|f: RenderFamily| f != family implies #[trigger] self.render_map(f) == old(self).render_map(f) by {
                match f {
                    RenderFamily::Graphics => {},
                    RenderFamily::Fullscreen => {},
                    RenderFamily::SimpleGeometry => {},
                }
            }
            assert forall|f: RenderFamily, h: u64| #[trigger] self.render_map(f).contains_key(h)
                implies self.render_map(f)[h] < self.render_count() by {
                if f != family || h != hash {
                    assert(old(self).render_map(f).contains_key(h));
                }
            }
            assert forall|f1: RenderFamily, h1: u64, f2: RenderFamily, h2: u64|
                #[trigger] self.render_map(f1).contains_key(h1) && #[trigger] self.render_map(f2).contains_key(h2)
                    && (f1 != f2 || h1 != h2) implies self.render_map(f1)[h1] != self.render_map(f2)[h2] by {
                if f1 == family && h1 == hash {
                    assert(old(self).render_map(f2).contains_key(h2));
                } else if f2 == family && h2 == hash {
                    assert(old(self).render_map(f1).contains_key(h1));
                } else {
                    assert(old(self).render_map(f1).contains_key(h1));
                    assert(old(self).render_map(f2).contains_key(h2));
                }
            }
            assert(self.compute_map() == old(self).compute_map());
            assert(self.compute_count() == old(self).compute_count());
            assert forall|h: u64| #[trigger] self.compute_map().contains_key(h)
                implies self.compute_map()[h] < self.compute_count() by {
                assert(old(self).compute_map().contains_key(h));
            }
            assert forall|h1: u64, h2: u64|
                #[trigger] self.compute_map().contains_key(h1) && #[trigger] self.compute_map().contains_key(h2)
                    && h1 != h2 implies self.compute_map()[h1] != self.compute_map()[h2] by {
                assert(old(self).compute_map().contains_key(h1));
                assert(old(self).compute_map().contains_key(h2));
            }
            assert(self.ids_wf());
        }
        RenderPipelineId(id)
    }

    /// Appends a compute pipeline and records its new id under `hash`.
    fn append_compute(&mut self, hash: u64, pipeline: C) -> (id: ComputePipelineId)
        requires
            old(self).wf(),
            old(self).compute_count() < u32::MAX,
            !old(self).compute_map().contains_key(hash),
        ensures
            final(self).wf(),
            id.0 == old(self).compute_count(),
            final(self).compute_pipelines() == old(self).compute_pipelines().push(pipeline),
            final(self).compute_layouts() == old(self).compute_layouts().push(None),
            final(self).compute_map() == old(self).compute_map().insert(hash, id.0),
            final(self).same_render(old(self)),
            final(self).same_fast(old(self)),
    {
        let id = self.compute_pipelines.len() as u32;
        self.compute_pipelines.push(pipeline);
        self.compute_layouts.push(None);
        self.compute_lookup.insert(hash, id);
        proof {
            assert(self.compute_layouts() =~= old(self).compute_layouts().push(None));
            assert forall|f: RenderFamily| #[trigger] self.render_map(f) == old(self).render_map(f) by {
                match f {
                    RenderFamily::Graphics => {},
                    RenderFamily::Fullscreen => {},
                    RenderFamily::SimpleGeometry => {},
                }
            }
            assert forall|h: u64| #[trigger] self.compute_map().contains_key(h)
                implies self.compute_map()[h] < self.compute_count() by {
                if h != hash {
                    assert(old(self).compute_map().contains_key(h));
                }
            }
            assert forall|h1: u64, h2: u64|
                #[trigger] self.compute_map().contains_key(h1) && #[trigger] self.compute_map().contains_key(h2)
                    && h1 != h2 implies self.compute_map()[h1] != self.compute_map()[h2] by {
                if h1 == hash {
                    assert(old(self).compute_map().contains_key(h2));
                } else if h2 == hash {
                    assert(old(self).compute_map().contains_key(h1));
                } else {
                    assert(old(self).compute_map().contains_key(h1));
                }
            }
            assert(self.ids_wf());
        }
        ComputePipelineId(id)
    }

    /// Looks up, or builds and caches, a fullscreen or post-processing
    /// pipeline. A hit returns the id recorded under the key's hash; a miss
    /// hands the state the key describes to `build`, appends the pipeline it
    /// returns and records the new id.
    pub fn get_or_create_fullscreen<F: FnOnce(RenderPipelineState) -> R>(
        &mut self,
        key: &FullscreenPipelineKey,
        build: F,
    ) -> (id: RenderPipelineId)
        requires
            old(self).wf(),
            old(self).render_count() < u32::MAX,
            forall|st: RenderPipelineState| is_fullscreen_state(*key, st) ==> #[trigger] build.requires((st,)),
        ensures
            final(self).wf(),
            old(self).render_map(RenderFamily::Fullscreen).contains_key(key_hash(key)) ==> {
                &&& id.0 == old(self).render_map(RenderFamily::Fullscreen)[key_hash(key)]
                &&& final(self).same_render(old(self))
            },
            !old(self).render_map(RenderFamily::Fullscreen).contains_key(key_hash(key)) ==> {
                &&& id.0 == old(self).render_count()
                &&& final(self).render_appended(old(self), RenderFamily::Fullscreen, key_hash(key))
                &&& exists|st: RenderPipelineState|
                    is_fullscreen_state(*key, st) && #[trigger] build.ensures(
                        (st,),
                        final(self).render_pipelines().last(),
                    )
            },
            final(self).same_compute(old(self)),
            final(self).same_fast(old(self)),
    {
        let hash = fx_hash_key(key);
        if let Some(id) = self.render_get(RenderFamily::Fullscreen, hash) {
            proof {
                assert forall|f: RenderFamily| #[trigger] self.render_map(f) == old(self).render_map(f) by {}
            }
            return RenderPipelineId(id);
        }
        let state = fullscreen_pipeline_state(key);
        let ghost st = state;
        let pipeline = build(state);
        let id = self.append_render(RenderFamily::Fullscreen, hash, pipeline);
        assert(build.ensures((st,), self.render_pipelines().last()));
        id
    }

    /// Looks up, or builds and caches, a material geometry pipeline. A hit
    /// returns the id recorded under the key's hash. A miss prepares the
    /// shader options (`options` with the vertex input code, the binding code
    /// of the global, material and object bindings, and the
    /// clustered-lighting structs injected), hands them with the state the
    /// key describes to `build`, appends the pipeline it returns and records
    /// the new id.
    pub fn get_or_create_graphics<F: FnOnce(RenderPipelineState, ShaderCompilationOptions) -> R>(
        &mut self,
        key: &GraphicsPipelineKey,
        options: &ShaderCompilationOptions,
        vertex_input_code: &str,
        global_binding: &str,
        material_binding: &str,
        object_binding: &str,
        clustered_lighting_structs: &str,
        build: F,
    ) -> (id: RenderPipelineId)
        requires
            old(self).wf(),
            old(self).render_count() < u32::MAX,
            options.wf(),
            forall|st: RenderPipelineState, o: ShaderCompilationOptions|
                is_graphics_state(*key, st) && is_graphics_options(
                    *options,
                    vertex_input_code@,
                    global_binding@,
                    material_binding@,
                    object_binding@,
                    clustered_lighting_structs@,
                    o,
                ) ==> #[trigger] build.requires((st, o)),
        ensures
            final(self).wf(),
            old(self).render_map(RenderFamily::Graphics).contains_key(key_hash(key)) ==> {
                &&& id.0 == old(self).render_map(RenderFamily::Graphics)[key_hash(key)]
                &&& final(self).same_render(old(self))
            },
            !old(self).render_map(RenderFamily::Graphics).contains_key(key_hash(key)) ==> {
                &&& id.0 == old(self).render_count()
                &&& final(self).render_appended(old(self), RenderFamily::Graphics, key_hash(key))
                &&& exists|st: RenderPipelineState, o: ShaderCompilationOptions|
                    is_graphics_state(*key, st) && is_graphics_options(
                        *options,
                        vertex_input_code@,
                        global_binding@,
                        material_binding@,
                        object_binding@,
                        clustered_lighting_structs@,
                        o,
                    ) && #[trigger] build.ensures((st, o), final(self).render_pipelines().last())
            },
            final(self).same_compute(old(self)),
            final(self).same_fast(old(self)),
    {
        let hash = fx_hash_key(key);
        if let Some(id) = self.render_get(RenderFamily::Graphics, hash) {
            proof {
                assert forall|f: RenderFamily| #[trigger] self.render_map(f) == old(self).render_map(f) by {}
            }
            return RenderPipelineId(id);
        }
        let opts = graphics_shader_options(
            options,
            vertex_input_code,
            global_binding,
            material_binding,
            object_binding,
            clustered_lighting_structs,
        );
        let state = graphics_pipeline_state(key);
        let ghost st = state;
        let ghost o = opts;
        let pipeline = build(state, opts);
        let id = self.append_render(RenderFamily::Graphics, hash, pipeline);
        assert(build.ensures((st, o), self.render_pipelines().last()));
        id
    }

    /// Looks up, or builds and caches, a simplified geometry pipeline
    /// (depth prepass, shadow), as `get_or_create_fullscreen` does.
    pub fn get_or_create_simple_geometry<F: FnOnce(RenderPipelineState) -> R>(
        &mut self,
        key: &SimpleGeometryPipelineKey,
        build: F,
    ) -> (id: RenderPipelineId)
        requires
            old(self).wf(),
            old(self).render_count() < u32::MAX,
            forall|st: RenderPipelineState| is_simple_geometry_state(*key, st) ==> #[trigger] build.requires((st,)),
        ensures
            final(self).wf(),
            old(self).render_map(RenderFamily::SimpleGeometry).contains_key(key_hash(key)) ==> {
                &&& id.0 == old(self).render_map(RenderFamily::SimpleGeometry)[key_hash(key)]
                &&& final(self).same_render(old(self))
            },
            !old(self).render_map(RenderFamily::SimpleGeometry).contains_key(key_hash(key)) ==> {
                &&& id.0 == old(self).render_count()
                &&& final(self).render_appended(old(self), RenderFamily::SimpleGeometry, key_hash(key))
                &&& exists|st: RenderPipelineState|
                    is_simple_geometry_state(*key, st) && #[trigger] build.ensures(
                        (st,),
                        final(self).render_pipelines().last(),
                    )
            },
            final(self).same_compute(old(self)),
            final(self).same_fast(old(self)),
    {
        let hash = fx_hash_key(key);
        if let Some(id) = self.render_get(RenderFamily::SimpleGeometry, hash) {
            proof {
                assert forall|f: RenderFamily| #[trigger] self.render_map(f) == old(self).render_map(f) by {}
            }
            return RenderPipelineId(id);
        }
        let state = simple_geometry_pipeline_state(key);
        let ghost st = state;
        let pipeline = build(state);
        let id = self.append_render(RenderFamily::SimpleGeometry, hash, pipeline);
        assert(build.ensures((st,), self.render_pipelines().last()));
        id
    }

    /// Looks up, or builds and caches, a compute pipeline. A hit returns the
    /// id recorded under the key's hash; a miss appends what `build` returns
    /// and records the new id.
    pub fn get_or_create_compute<F: FnOnce() -> C>(&mut self, key: &ComputePipelineKey, build: F) -> (id:
        ComputePipelineId)
        requires
            old(self).wf(),
            old(self).compute_count() < u32::MAX,
            build.requires(()),
        ensures
            final(self).wf(),
            old(self).compute_map().contains_key(key_hash(key)) ==> {
                &&& id.0 == old(self).compute_map()[key_hash(key)]
                &&& final(self).same_compute(old(self))
            },
            !old(self).compute_map().contains_key(key_hash(key)) ==> {
                &&& id.0 == old(self).compute_count()
                &&& final(self).compute_pipelines().drop_last() == old(self).compute_pipelines()
                &&& final(self).compute_count() == old(self).compute_count() + 1
                &&& build.ensures((), final(self).compute_pipelines().last())
                &&& final(self).compute_layouts() == old(self).compute_layouts().push(None)
                &&& final(self).compute_map() == old(self).compute_map().insert(key_hash(key), id.0)
            },
            final(self).same_render(old(self)),
            final(self).same_fast(old(self)),
    {
        let hash = fx_hash_key(key);
        match self.compute_lookup.get(&hash) {
            Some(id) => {
                proof {
                    assert forall|f: RenderFamily| #[trigger] self.render_map(f) == old(self).render_map(f) by {}
                }
                return ComputePipelineId(*id);
            },
            None => {},
        }
        let pipeline = build();
        let id = self.append_compute(hash, pipeline);
        assert(self.compute_pipelines().drop_last() =~= old(self).compute_pipelines());
        id
    }

    /// Number of cached render pipelines.
    pub fn render_pipeline_count(&self) -> (r: usize)
        ensures
            r == self.render_count(),
    {
        self.render_pipelines.len()
    }

    /// Number of cached compute pipelines.
    pub fn compute_pipeline_count(&self) -> (r: usize)
        ensures
            r == self.compute_count(),
    {
        self.compute_pipelines.len()
    }
}

/// A key looked up again after its pipeline was built hits: the table of its
/// family then holds the new id under the key's hash, and the pipelines built
/// before are where they were.
pub proof fn lemma_second_lookup_hits<R, C, L>(
    before: PipelineCache<R, C, L>,
    after: PipelineCache<R, C, L>,
    family: RenderFamily,
    hash: u64,
)
    requires
        after.render_appended(&before, family, hash),
    ensures
        after.render_map(family).contains_key(hash),
        after.render_map(family)[hash] == before.render_count() as u32,
        after.render_pipelines().subrange(0, before.render_count() as int) == before.render_pipelines(),
{
    assert(after.render_pipelines().subrange(0, before.render_count() as int) =~= after.render_pipelines().drop_last());
}

/// While the layout table runs parallel to the pipelines (as it does after
/// `new` and `clear`), a newly built pipeline has no layouts: its entry is
/// empty until layouts are registered for it, so `get_tracked_layout` is not
/// available for it, and the table stays parallel.
pub proof fn lemma_new_pipeline_has_no_layouts<R, C, L>(
    before: PipelineCache<R, C, L>,
    after: PipelineCache<R, C, L>,
    family: RenderFamily,
    hash: u64,
)
    requires
        after.render_appended(&before, family, hash),
        before.render_layouts().len() == before.render_count(),
    ensures
        after.render_layouts().len() == after.render_count(),
        after.render_layouts()[before.render_count() as int] is None,
{
}

} // verus!
