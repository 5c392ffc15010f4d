//! Strongly-typed pipeline cache keys.
use vstd::prelude::*;

use crate::format::TextureFormat;
use crate::pipeline::gpu_state::{
    BlendFactor, BlendOperation, CompareFunction, Face, FrontFace, PrimitiveTopology, StencilOperation,
    COLOR_WRITES_ALL,
};
use crate::pipeline::hashing::{enc_str, enc_u32, enc_u64, fx_hash_bytes, HashInput};
use vstd::bytes::spec_u128_to_le_bytes;

verus! {

/// Hashable mirror of a depth-bias state (floats kept as their bit
/// patterns).
#[derive(Debug, Clone, Copy, PartialEq, Eq, Structural, Hash)]
pub struct DepthBiasKey {
    pub constant: i32,
    pub slope_scale_bits: u32,
    pub clamp_bits: u32,
}

/// Hashable mirror of a multisample state.
#[derive(Debug, Clone, Copy, PartialEq, Eq, Structural, Hash)]
pub struct MultisampleKey {
    pub count: u32,
    pub mask: u64,
    pub alpha_to_coverage_enabled: bool,
}

impl MultisampleKey {
    /// The single-sample state: one sample, all mask bits, no
    /// alpha-to-coverage.
    pub fn single_sample() -> (r: Self)
        ensures
            r.count == 1,
            r.mask == u64::MAX,
            !r.alpha_to_coverage_enabled,
    {
        MultisampleKey { count: 1, mask: u64::MAX, alpha_to_coverage_enabled: false }
    }
}

impl DepthBiasKey {
    /// No depth bias.
    pub fn none() -> (r: Self)
        ensures
            r.constant == 0 && r.slope_scale_bits == 0 && r.clamp_bits == 0,
    {
        DepthBiasKey { constant: 0, slope_scale_bits: 0, clamp_bits: 0 }
    }
}

/// A value that serialises the state identifying it into a hash input.
pub trait CacheKey {
    /// The bytes this value contributes to a hash input.
    spec fn key_encoding(&self) -> Seq<u8>;

    /// Appends this value's encoding to `input`.
    fn encode(&self, input: &mut HashInput)
        ensures
            final(input).view() == old(input).view() + self.key_encoding(),
    ;
}

/// The FxHash of a key's encoding: the full-state hash a pipeline cache is
/// keyed with.
pub fn fx_hash_key<K: CacheKey>(key: &K) -> (r: u64)
    ensures
        r == fx_hash_bytes(key.key_encoding()),
{
    let mut input = HashInput::new();
    key.encode(&mut input);
    assert(input.view() =~= key.key_encoding());
    input.fx_finish()
}

/// Encoding of a texture format: its tag, then its payload.
pub open spec fn enc_format(f: TextureFormat) -> Seq<u8> {
    seq![f.spec_tag()] + enc_u32(f.spec_payload())
}

fn push_format(input: &mut HashInput, f: TextureFormat)
    ensures
        final(input).view() == old(input).view() + enc_format(f),
{
    let ghost v0 = input.view();
    input.push_u8(f.tag());
    input.push_u32(f.payload());
    assert(input.view() =~= v0 + enc_format(f));
}

impl CacheKey for DepthBiasKey {
    open spec fn key_encoding(&self) -> Seq<u8> {
        enc_u32(self.constant as u32) + enc_u32(self.slope_scale_bits) + enc_u32(self.clamp_bits)
    }

    fn encode(&self, input: &mut HashInput) {
        let ghost v0 = input.view();
        input.push_u32(self.constant as u32);
        input.push_u32(self.slope_scale_bits);
        input.push_u32(self.clamp_bits);
        assert(input.view() =~= v0 + self.key_encoding());
    }
}

impl CacheKey for MultisampleKey {
    open spec fn key_encoding(&self) -> Seq<u8> {
        enc_u32(self.count) + enc_u64(self.mask) + seq![
            if self.alpha_to_coverage_enabled {
                1u8
            } else {
                0u8
            },
        ]
    }

    fn encode(&self, input: &mut HashInput) {
        let ghost v0 = input.view();
        input.push_u32(self.count);
        input.push_u64(self.mask);
        input.push_u8(if self.alpha_to_coverage_enabled { 1 } else { 0 });
        assert(input.view() =~= v0 + self.key_encoding());
    }
}

/// Hashable mirror of a blend component (one blend equation).
#[derive(Debug, Clone, Copy, PartialEq, Eq, Structural, Hash)]
pub struct BlendComponentKey {
    pub src_factor: BlendFactor,
    pub dst_factor: BlendFactor,
    pub operation: BlendOperation,
}

impl CacheKey for BlendComponentKey {
    open spec fn key_encoding(&self) -> Seq<u8> {
        seq![self.src_factor.spec_code(), self.dst_factor.spec_code(), self.operation.spec_code()]
    }

    fn encode(&self, input: &mut HashInput) {
        let ghost v0 = input.view();
        input.push_u8(self.src_factor.code());
        input.push_u8(self.dst_factor.code());
        input.push_u8(self.operation.code());
        assert(input.view() =~= v0 + self.key_encoding());
    }
}

/// Hashable mirror of a blend state: the color and alpha equations.
#[derive(Debug, Clone, Copy, PartialEq, Eq, Structural, Hash)]
pub struct BlendStateKey {
    pub color: BlendComponentKey,
    pub alpha: BlendComponentKey,
}

impl CacheKey for BlendStateKey {
    open spec fn key_encoding(&self) -> Seq<u8> {
        self.color.key_encoding() + self.alpha.key_encoding()
    }

    fn encode(&self, input: &mut HashInput) {
        let ghost v0 = input.view();
        self.color.encode(input);
        self.alpha.encode(input);
        assert(input.view() =~= v0 + self.key_encoding());
    }
}

/// Encoding of an optional blend state: a presence byte, then the state.
pub open spec fn enc_opt_blend(b: Option<BlendStateKey>) -> Seq<u8> {
    match b {
        Some(k) => seq![1u8] + k.key_encoding(),
        None => seq![0u8],
    }
}

fn push_opt_blend(input: &mut HashInput, b: Option<BlendStateKey>)
    ensures
        final(input).view() == old(input).view() + enc_opt_blend(b),
{
    let ghost v0 = input.view();
    match b {
        Some(k) => {
            input.push_u8(1);
            k.encode(input);
        },
        None => {
            input.push_u8(0);
        },
    }
    assert(input.view() =~= v0 + enc_opt_blend(b));
}

/// Hashable mirror of a color target: format, blending and write mask.
#[derive(Debug, Clone, Copy, PartialEq, Eq, Structural, Hash)]
pub struct ColorTargetKey {
    pub format: TextureFormat,
    pub blend: Option<BlendStateKey>,
    /// Color write mask bits.
    pub write_mask: u32,
}

impl CacheKey for ColorTargetKey {
    open spec fn key_encoding(&self) -> Seq<u8> {
        enc_format(self.format) + enc_opt_blend(self.blend) + enc_u32(self.write_mask)
    }

    fn encode(&self, input: &mut HashInput) {
        let ghost v0 = input.view();
        push_format(input, self.format);
        push_opt_blend(input, self.blend);
        input.push_u32(self.write_mask);
        assert(input.view() =~= v0 + self.key_encoding());
    }
}

/// The blend state that writes the source unchanged: `1 * src + 0 * dst`
/// for color and alpha.
pub open spec fn blend_replace() -> BlendStateKey {
    BlendStateKey {
        color: BlendComponentKey {
            src_factor: BlendFactor::One,
            dst_factor: BlendFactor::Zero,
            operation: BlendOperation::Add,
        },
        alpha: BlendComponentKey {
            src_factor: BlendFactor::One,
            dst_factor: BlendFactor::Zero,
            operation: BlendOperation::Add,
        },
    }
}

/// A color target of `format` that replaces what it covers, all channels
/// written.
pub open spec fn spec_replace_target(format: TextureFormat) -> ColorTargetKey {
    ColorTargetKey { format, blend: Some(blend_replace()), write_mask: COLOR_WRITES_ALL }
}

/// The replacing color target of `format`.
pub fn replace_target(format: TextureFormat) -> (r: ColorTargetKey)
    ensures
        r == spec_replace_target(format),
{
    let c = BlendComponentKey {
        src_factor: BlendFactor::One,
        dst_factor: BlendFactor::Zero,
        operation: BlendOperation::Add,
    };
    ColorTargetKey { format, blend: Some(BlendStateKey { color: c, alpha: c }), write_mask: COLOR_WRITES_ALL }
}

/// Hashable mirror of the stencil state of one face.
#[derive(Debug, Clone, Copy, PartialEq, Eq, Structural, Hash)]
pub struct StencilFaceKey {
    pub compare: CompareFunction,
    pub fail_op: StencilOperation,
    pub depth_fail_op: StencilOperation,
    pub pass_op: StencilOperation,
}

/// The face state that ignores the stencil buffer: always pass, keep the
/// stored value.
pub open spec fn stencil_face_ignore() -> StencilFaceKey {
    StencilFaceKey {
        compare: CompareFunction::Always,
        fail_op: StencilOperation::Keep,
        depth_fail_op: StencilOperation::Keep,
        pass_op: StencilOperation::Keep,
    }
}

impl CacheKey for StencilFaceKey {
    open spec fn key_encoding(&self) -> Seq<u8> {
        seq![
            self.compare.spec_code(),
            self.fail_op.spec_code(),
            self.depth_fail_op.spec_code(),
            self.pass_op.spec_code(),
        ]
    }

    fn encode(&self, input: &mut HashInput) {
        let ghost v0 = input.view();
        input.push_u8(self.compare.code());
        input.push_u8(self.fail_op.code());
        input.push_u8(self.depth_fail_op.code());
        input.push_u8(self.pass_op.code());
        assert(input.view() =~= v0 + self.key_encoding());
    }
}

/// Hashable mirror of a stencil state.
#[derive(Debug, Clone, Copy, PartialEq, Eq, Structural, Hash)]
pub struct StencilStateKey {
    pub front: StencilFaceKey,
    pub back: StencilFaceKey,
    pub read_mask: u32,
    pub write_mask: u32,
}

/// The stencil state that leaves the stencil test off: both faces ignore
/// the buffer and both masks are empty.
pub open spec fn stencil_disabled() -> StencilStateKey {
    StencilStateKey {
        front: stencil_face_ignore(),
        back: stencil_face_ignore(),
        read_mask: 0,
        write_mask: 0,
    }
}

impl StencilStateKey {
    /// The disabled stencil state.
    pub fn disabled() -> (r: Self)
        ensures
            r == stencil_disabled(),
    {
        let face = StencilFaceKey {
            compare: CompareFunction::Always,
            fail_op: StencilOperation::Keep,
            depth_fail_op: StencilOperation::Keep,
            pass_op: StencilOperation::Keep,
        };
        StencilStateKey { front: face, back: face, read_mask: 0, write_mask: 0 }
    }
}

impl CacheKey for StencilStateKey {
    open spec fn key_encoding(&self) -> Seq<u8> {
        self.front.key_encoding() + self.back.key_encoding() + enc_u32(self.read_mask) + enc_u32(
            self.write_mask,
        )
    }

    fn encode(&self, input: &mut HashInput) {
        let ghost v0 = input.view();
        self.front.encode(input);
        self.back.encode(input);
        input.push_u32(self.read_mask);
        input.push_u32(self.write_mask);
        assert(input.view() =~= v0 + self.key_encoding());
    }
}

/// Hashable mirror of a depth-stencil state.
#[derive(Debug, Clone, Copy, PartialEq, Eq, Structural, Hash)]
pub struct DepthStencilKey {
    pub format: TextureFormat,
    pub depth_write_enabled: Option<bool>,
    pub depth_compare: Option<CompareFunction>,
    pub stencil: StencilStateKey,
    pub bias: DepthBiasKey,
}

/// Code of an optional flag: 0 when unset, 1 for `false`, 2 for `true`.
pub open spec fn opt_bool_code(b: Option<bool>) -> u8 {
    match b {
        None => 0,
        Some(false) => 1,
        Some(true) => 2,
    }
}

/// Code of an optional comparison: 0 when unset, else the comparison's code.
pub open spec fn opt_compare_code(c: Option<CompareFunction>) -> u8 {
    match c {
        None => 0,
        Some(f) => f.spec_code(),
    }
}

impl CacheKey for DepthStencilKey {
    open spec fn key_encoding(&self) -> Seq<u8> {
        enc_format(self.format) + seq![
            opt_bool_code(self.depth_write_enabled),
            opt_compare_code(self.depth_compare),
        ] + self.stencil.key_encoding() + self.bias.key_encoding()
    }

    fn encode(&self, input: &mut HashInput) {
        let ghost v0 = input.view();
        push_format(input, self.format);
        let w: u8 = match self.depth_write_enabled {
            None => 0,
            Some(false) => 1,
            Some(true) => 2,
        };
        input.push_u8(w);
        let c: u8 = match self.depth_compare {
            None => 0,
            Some(f) => f.code(),
        };
        input.push_u8(c);
        self.stencil.encode(input);
        self.bias.encode(input);
        assert(input.view() =~= v0 + self.key_encoding());
    }
}

/// Bitmask of boolean graphics-pipeline states.
#[derive(Debug, Clone, Copy, PartialEq, Eq, Structural, Hash)]
pub struct PipelineFlags {
    bits: u32,
}

/// Depth writes are enabled.
pub const DEPTH_WRITE: u32 = 1;
/// Alpha-to-coverage is enabled.
pub const ALPHA_TO_COVERAGE: u32 = 2;
/// Specular is written to a separate target.
pub const SPECULAR_SPLIT: u32 = 4;

impl PipelineFlags {
    /// The raw bits.
    pub closed spec fn spec_bits(&self) -> u32 {
        self.bits
    }

    /// No flag set.
    pub fn empty() -> (r: Self)
        ensures
            r.spec_bits() == 0,
    {
        PipelineFlags { bits: 0 }
    }

    /// Flags with exactly the known bits of `bits` (unknown bits dropped).
    pub fn from_bits_truncate(bits: u32) -> (r: Self)
        ensures
            r.spec_bits() == bits & 7,
    {
        PipelineFlags { bits: bits & 7 }
    }

    /// The raw bits.
    pub fn bits(&self) -> (r: u32)
        ensures
            r == self.spec_bits(),
    {
        self.bits
    }

    /// Whether every bit of `flag` is set.
    pub fn contains(&self, flag: u32) -> (r: bool)
        ensures
            r == (self.spec_bits() & flag == flag),
    {
        self.bits & flag == flag
    }

    /// Sets the bits of `flag`.
    pub fn insert(&mut self, flag: u32)
        ensures
            final(self).spec_bits() == old(self).spec_bits() | flag,
    {
        self.bits = self.bits | flag;
    }

    /// Clears the bits of `flag`.
    pub fn remove(&mut self, flag: u32)
        ensures
            final(self).spec_bits() == old(self).spec_bits() & !flag,
    {
        self.bits = self.bits & !flag;
    }
}

/// Flags are determined by their bits.
pub proof fn lemma_flags_determined_by_bits(a: PipelineFlags, b: PipelineFlags)
    requires
        a.spec_bits() == b.spec_bits(),
    ensures
        a == b,
{
}

/// Setting a flag makes it present and leaves the other flags as they were;
/// clearing it makes it absent, likewise.
pub proof fn lemma_flag_insert_remove(bits: u32, flag: u32, other: u32)
    requires
        flag == DEPTH_WRITE || flag == ALPHA_TO_COVERAGE || flag == SPECULAR_SPLIT,
        other == DEPTH_WRITE || other == ALPHA_TO_COVERAGE || other == SPECULAR_SPLIT,
        flag != other,
    ensures
        (bits | flag) & flag == flag,
        (bits & !flag) & flag == 0,
        ((bits | flag) & other == other) == (bits & other == other),
        ((bits & !flag) & other == other) == (bits & other == other),
{
    assert((bits | flag) & flag == flag) by (bit_vector);
    assert((bits & !flag) & flag == 0) by (bit_vector);
    assert(((bits | flag) & other == other) == (bits & other == other)) by (bit_vector)
        requires
            flag == 1u32 || flag == 2u32 || flag == 4u32,
            other == 1u32 || other == 2u32 || other == 4u32,
            flag != other;
    assert(((bits & !flag) & other == other) == (bits & other == other)) by (bit_vector)
        requires
            flag == 1u32 || flag == 2u32 || flag == 4u32,
            other == 1u32 || other == 2u32 || other == 4u32,
            flag != other;
}

/// Code of an optional cull face: 0 for no culling, else 1 plus the face's
/// code.
pub open spec fn opt_face_code(f: Option<Face>) -> u8 {
    match f {
        None => 0,
        Some(face) => (face.spec_code() + 1) as u8,
    }
}

fn cull_code(f: Option<Face>) -> (r: u8)
    ensures
        r == opt_face_code(f),
{
    match f {
        None => 0,
        Some(Face::Front) => 1,
        Some(Face::Back) => 2,
    }
}

/// L2 cache key of a material-driven scene geometry pipeline.
#[derive(Debug, Clone, PartialEq, Eq, Hash)]
pub struct GraphicsPipelineKey {
    /// Hash of the shader source identity and its compilation options.
    pub shader_hash: u64,
    pub vertex_layout_id: u64,
    /// Layout ids of the global, material, object and screen bind groups.
    pub bind_group_layout_ids: [u64; 4],
    pub topology: PrimitiveTopology,
    pub cull_mode: Option<Face>,
    pub front_face: FrontFace,
    pub depth_compare: CompareFunction,
    pub blend_state: Option<BlendStateKey>,
    pub color_format: TextureFormat,
    pub depth_format: TextureFormat,
    pub sample_count: u32,
    pub flags: PipelineFlags,
}

impl CacheKey for GraphicsPipelineKey {
    open spec fn key_encoding(&self) -> Seq<u8> {
        enc_u64(self.shader_hash) + enc_u64(self.vertex_layout_id) + enc_u64(
            self.bind_group_layout_ids@[0],
        ) + enc_u64(self.bind_group_layout_ids@[1]) + enc_u64(self.bind_group_layout_ids@[2])
            + enc_u64(self.bind_group_layout_ids@[3]) + seq![
            self.topology.spec_code(),
            opt_face_code(self.cull_mode),
            self.front_face.spec_code(),
            self.depth_compare.spec_code(),
        ] + enc_opt_blend(self.blend_state) + enc_format(self.color_format) + enc_format(
            self.depth_format,
        ) + enc_u32(self.sample_count) + enc_u32(self.flags.spec_bits())
    }

    fn encode(&self, input: &mut HashInput) {
        let ghost v0 = input.view();
        input.push_u64(self.shader_hash);
        input.push_u64(self.vertex_layout_id);
        input.push_u64(self.bind_group_layout_ids[0]);
        input.push_u64(self.bind_group_layout_ids[1]);
        input.push_u64(self.bind_group_layout_ids[2]);
        input.push_u64(self.bind_group_layout_ids[3]);
        input.push_u8(self.topology.code());
        input.push_u8(cull_code(self.cull_mode));
        input.push_u8(self.front_face.code());
        input.push_u8(self.depth_compare.code());
        push_opt_blend(input, self.blend_state);
        push_format(input, self.color_format);
        push_format(input, self.depth_format);
        input.push_u32(self.sample_count);
        input.push_u32(self.flags.bits());
        assert(input.view() =~= v0 + self.key_encoding());
    }
}

/// Encoding of a list of color targets, without its length.
pub open spec fn enc_targets(t: Seq<ColorTargetKey>) -> Seq<u8>
    decreases t.len(),
{
    if t.len() == 0 {
        Seq::empty()
    } else {
        enc_targets(t.drop_last()) + t.last().key_encoding()
    }
}

fn push_targets(input: &mut HashInput, targets: &Vec<ColorTargetKey>)
    ensures
        final(input).view() == old(input).view() + enc_u64(targets@.len() as u64) + enc_targets(
            targets@,
        ),
{
    let n = targets.len();
    input.push_u64(n as u64);
    let ghost base = input.view();
    let mut i: usize = 0;
    while i < n
        invariant
            i <= n,
            n == targets@.len(),
            input.view() == base + enc_targets(targets@.take(i as int)),
        decreases n - i,
    {
        targets[i].encode(input);
        assert(targets@.take(i + 1).drop_last() =~= targets@.take(i as int));
        assert(input.view() =~= base + enc_targets(targets@.take(i + 1)));
        i = i + 1;
    }
    assert(targets@.take(n as int) =~= targets@);
}

/// Encoding of an optional depth-stencil state: a presence byte, then the
/// state.
pub open spec fn enc_opt_depth_stencil(d: Option<DepthStencilKey>) -> Seq<u8> {
    match d {
        Some(k) => seq![1u8] + k.key_encoding(),
        None => seq![0u8],
    }
}

fn push_opt_depth_stencil(input: &mut HashInput, d: Option<DepthStencilKey>)
    ensures
        final(input).view() == old(input).view() + enc_opt_depth_stencil(d),
{
    let ghost v0 = input.view();
    match d {
        Some(k) => {
            input.push_u8(1);
            k.encode(input);
        },
        None => {
            input.push_u8(0);
        },
    }
    assert(input.view() =~= v0 + enc_opt_depth_stencil(d));
}

/// L2 cache key of a fullscreen or post-processing pipeline (the skybox
/// included); the primitive state of such a pipeline is fixed.
#[derive(Debug, Clone, PartialEq, Eq, Hash)]
pub struct FullscreenPipelineKey {
    /// xxh3-128 of the final WGSL source.
    pub shader_hash: u128,
    pub color_targets: Vec<ColorTargetKey>,
    pub depth_stencil: Option<DepthStencilKey>,
    pub multisample: MultisampleKey,
}

impl FullscreenPipelineKey {
    /// A fullscreen-triangle key with single sampling.
    pub fn fullscreen(
        shader_hash: u128,
        color_targets: Vec<ColorTargetKey>,
        depth_stencil: Option<DepthStencilKey>,
    ) -> (r: Self)
        ensures
            r.shader_hash == shader_hash,
            r.color_targets@ == color_targets@,
            r.depth_stencil == depth_stencil,
            r.multisample == (MultisampleKey {
                count: 1,
                mask: u64::MAX,
                alpha_to_coverage_enabled: false,
            }),
    {
        FullscreenPipelineKey {
            shader_hash,
            color_targets,
            depth_stencil,
            multisample: MultisampleKey::single_sample(),
        }
    }
}

impl CacheKey for FullscreenPipelineKey {
    open spec fn key_encoding(&self) -> Seq<u8> {
        spec_u128_to_le_bytes(self.shader_hash) + enc_u64(self.color_targets@.len() as u64)
            + enc_targets(self.color_targets@) + enc_opt_depth_stencil(self.depth_stencil)
            + self.multisample.key_encoding()
    }

    fn encode(&self, input: &mut HashInput) {
        let ghost v0 = input.view();
        input.push_u128(self.shader_hash);
        push_targets(input, &self.color_targets);
        push_opt_depth_stencil(input, self.depth_stencil);
        self.multisample.encode(input);
        assert(input.view() =~= v0 + self.key_encoding());
    }
}

/// L2 cache key of a simplified geometry pipeline (depth prepass, shadow):
/// mesh input without material state.
#[derive(Debug, Clone, PartialEq, Eq, Hash)]
pub struct SimpleGeometryPipelineKey {
    /// xxh3-128 of the final WGSL source.
    pub shader_hash: u128,
    /// Tells apart vertex buffer layouts (static, skinned, morphed).
    pub vertex_layout_id: u64,
    pub color_targets: Vec<ColorTargetKey>,
    pub depth_stencil: DepthStencilKey,
    pub topology: PrimitiveTopology,
    pub cull_mode: Option<Face>,
    pub front_face: FrontFace,
    pub sample_count: u32,
}

impl CacheKey for SimpleGeometryPipelineKey {
    open spec fn key_encoding(&self) -> Seq<u8> {
        spec_u128_to_le_bytes(self.shader_hash) + enc_u64(self.vertex_layout_id) + enc_u64(
            self.color_targets@.len() as u64,
        ) + enc_targets(self.color_targets@) + self.depth_stencil.key_encoding() + seq![
            self.topology.spec_code(),
            opt_face_code(self.cull_mode),
            self.front_face.spec_code(),
        ] + enc_u32(self.sample_count)
    }

    fn encode(&self, input: &mut HashInput) {
        let ghost v0 = input.view();
        input.push_u128(self.shader_hash);
        input.push_u64(self.vertex_layout_id);
        push_targets(input, &self.color_targets);
        self.depth_stencil.encode(input);
        input.push_u8(self.topology.code());
        input.push_u8(cull_code(self.cull_mode));
        input.push_u8(self.front_face.code());
        input.push_u32(self.sample_count);
        assert(input.view() =~= v0 + self.key_encoding());
    }
}

/// Compilation options of a compute pipeline: workgroup-memory zeroing and
/// overridable constants (values kept as their `f64` bit patterns).
pub struct PipelineCompilationOptions {
    pub zero_initialize_workgroup_memory: bool,
    pub constants: Vec<(String, u64)>,
}

/// Encoding of the overridable constants: the count, then each name and value.
pub open spec fn enc_constants(c: Seq<(Seq<char>, u64)>) -> Seq<u8>
    decreases c.len(),
{
    if c.len() == 0 {
        Seq::empty()
    } else {
        enc_constants(c.drop_last()) + enc_str(c.last().0) + enc_u64(c.last().1)
    }
}

impl PipelineCompilationOptions {
    /// The constants as `(name, bits)` pairs.
    pub open spec fn constants_view(&self) -> Seq<(Seq<char>, u64)> {
        self.constants@.map_values(|e: (String, u64)| (e.0@, e.1))
    }

    /// The bytes hashed to identify these options.
    pub open spec fn spec_encoding(&self) -> Seq<u8> {
        seq![if self.zero_initialize_workgroup_memory { 1u8 } else { 0u8 }] + enc_u64(
            self.constants@.len() as u64,
        ) + enc_constants(self.constants_view())
    }
}

/// A stable hash of pipeline compilation options.
pub fn hash_pipeline_compilation_options(options: &PipelineCompilationOptions) -> (r: u64)
    ensures
        r == fx_hash_bytes(options.spec_encoding()),
{
    let mut input = HashInput::new();
    input.push_u8(if options.zero_initialize_workgroup_memory { 1 } else { 0 });
    let n = options.constants.len();
    input.push_u64(n as u64);
    let ghost base = input.view();
    let ghost c = options.constants_view();
    let mut i: usize = 0;
    while i < n
        invariant
            i <= n,
            n == options.constants@.len(),
            c == options.constants_view(),
            input.view() == base + enc_constants(c.take(i as int)),
        decreases n - i,
    {
        assert(c[i as int] == (options.constants@[i as int].0@, options.constants@[i as int].1));
        input.push_str(options.constants[i].0.as_str());
        input.push_u64(options.constants[i].1);
        assert(c.take(i + 1).drop_last() =~= c.take(i as int));
        assert(input.view() =~= base + enc_constants(c.take(i + 1)));
        i = i + 1;
    }
    assert(c.take(n as int) =~= c);
    assert(input.view() =~= options.spec_encoding());
    input.fx_finish()
}

/// L2 cache key of a compute pipeline.
#[derive(Debug, Clone, Copy, PartialEq, Eq, Structural, Hash)]
pub struct ComputePipelineKey {
    /// xxh3-128 of the final WGSL source.
    pub shader_hash: u128,
    /// Hash of the compilation options (0 for the defaults).
    pub compilation_hash: u64,
}

impl ComputePipelineKey {
    /// A key for the given shader with default compilation options.
    pub fn new(shader_hash: u128) -> (r: Self)
        ensures
            r.shader_hash == shader_hash,
            r.compilation_hash == 0,
    {
        ComputePipelineKey { shader_hash, compilation_hash: 0 }
    }

    /// The key with the hash of `options` as its compilation hash.
    pub fn with_compilation_options(self, options: &PipelineCompilationOptions) -> (r: Self)
        ensures
            r.shader_hash == self.shader_hash,
            r.compilation_hash == fx_hash_bytes(options.spec_encoding()),
    {
        ComputePipelineKey {
            shader_hash: self.shader_hash,
            compilation_hash: hash_pipeline_compilation_options(options),
        }
    }

    /// The bytes hashed to place this key in the cache.
    pub open spec fn spec_encoding(&self) -> Seq<u8> {
        spec_u128_to_le_bytes(self.shader_hash) + enc_u64(self.compilation_hash)
    }

    /// The full-state hash the cache is keyed with.
    pub fn cache_hash(&self) -> (r: u64)
        ensures
            r == fx_hash_bytes(self.spec_encoding()),
    {
        let mut input = HashInput::new();
        input.push_u128(self.shader_hash);
        input.push_u64(self.compilation_hash);
        assert(input.view() =~= self.spec_encoding());
        input.fx_finish()
    }
}

impl CacheKey for ComputePipelineKey {
    open spec fn key_encoding(&self) -> Seq<u8> {
        self.spec_encoding()
    }

    fn encode(&self, input: &mut HashInput) {
        let ghost v0 = input.view();
        input.push_u128(self.shader_hash);
        input.push_u64(self.compilation_hash);
        assert(input.view() =~= v0 + self.key_encoding());
    }
}

/// Distinct compute keys have distinct encodings.
pub proof fn lemma_compute_key_encoding_injective(a: ComputePipelineKey, b: ComputePipelineKey)
    requires
        a.spec_encoding() == b.spec_encoding(),
    ensures
        a == b,
{
    vstd::bytes::lemma_auto_spec_u64_to_from_le_bytes();
    vstd::bytes::lemma_auto_spec_u128_to_from_le_bytes();
    let ea = a.spec_encoding();
    let eb = b.spec_encoding();
    assert(spec_u128_to_le_bytes(a.shader_hash).len() == 16);
    assert(spec_u128_to_le_bytes(b.shader_hash).len() == 16);
    assert(ea.subrange(0, 16) =~= spec_u128_to_le_bytes(a.shader_hash));
    assert(eb.subrange(0, 16) =~= spec_u128_to_le_bytes(b.shader_hash));
    assert(ea.subrange(16, 24) =~= enc_u64(a.compilation_hash));
    assert(eb.subrange(16, 24) =~= enc_u64(b.compilation_hash));
    assert(vstd::bytes::spec_u128_from_le_bytes(spec_u128_to_le_bytes(a.shader_hash)) == a.shader_hash);
    assert(vstd::bytes::spec_u128_from_le_bytes(spec_u128_to_le_bytes(b.shader_hash)) == b.shader_hash);
    assert(vstd::bytes::spec_u64_from_le_bytes(enc_u64(a.compilation_hash)) == a.compilation_hash);
    assert(vstd::bytes::spec_u64_from_le_bytes(enc_u64(b.compilation_hash)) == b.compilation_hash);
}

} // verus!
