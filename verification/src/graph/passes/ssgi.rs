//! Screen Space Global Illumination: temporal-history bookkeeping and
//! denoiser scheduling.
//!
//! The GPU side owns the textures and pipelines; this state decides when the
//! history targets must be reallocated, which history inputs are trustworthy
//! and how many A-Trous denoise iterations run; it also tracks the pipelines
//! of the SSGI chain.
use vstd::prelude::*;

use crate::graph::passes::trace_chain::{trace_stage_options, ChainPipelines, ChainStage};
use crate::pipeline::cache::RenderPipelineId;
use crate::pipeline::shader_defines::spec_set;
use crate::pipeline::shader_gen::{
    scene_blocks, scene_pass_options, spec_decimal, struct_only_options, ShaderCompilationOptions,
};

use crate::format::{TextureFormat, HDR_TEXTURE_FORMAT};
use crate::graph::node::{TextureDesc, USAGE_COPY_DST, USAGE_COPY_SRC, USAGE_RENDER_ATTACHMENT, USAGE_TEXTURE_BINDING};

verus! {

/// Upper bound on the number of A-Trous denoise iterations.
pub const MAX_ATROUS_PASSES: u32 = 4;
/// History flag: the indirect-lighting history is valid.
pub const HISTORY_FLAG_INDIRECT_VALID: u32 = 1;
/// History flag: the source-colour history is valid.
pub const HISTORY_FLAG_SOURCE_VALID: u32 = 2;
/// Compute workgroup edge length of the SSGI kernels.
pub const SSGI_WORKGROUP_SIZE: u32 = 8;

/// Outputs produced by the SSGI chain, returned for downstream wiring.
#[derive(Debug, Clone, Copy, PartialEq, Eq, Structural)]
pub struct SsgiOutputs {
    pub merged_color: crate::graph::node::TextureNodeId,
    pub raw_indirect: crate::graph::node::TextureNodeId,
    pub clean_indirect: crate::graph::node::TextureNodeId,
}

/// `floor(log2(x))` for `x >= 1`.
pub open spec fn floor_log2(x: nat) -> nat
    decreases x,
{
    if x <= 1 {
        0
    } else {
        1 + floor_log2(x / 2)
    }
}

proof fn lemma_floor_log2_bounded(x: nat)
    requires
        x >= 1,
    ensures
        floor_log2(x) < 32 || x >= 0x1_0000_0000,
        vstd::arithmetic::power2::pow2(floor_log2(x)) <= x < vstd::arithmetic::power2::pow2(
            floor_log2(x) + 1,
        ),
    decreases x,
{
    vstd::arithmetic::power2::lemma_pow2_unfold(floor_log2(x) + 1);
    if x > 1 {
        lemma_floor_log2_bounded(x / 2);
        vstd::arithmetic::power2::lemma_pow2_unfold(floor_log2(x));
    } else {
        vstd::arithmetic::power2::lemma2_to64();
    }
    if x < 0x1_0000_0000 {
        vstd::arithmetic::power2::lemma2_to64();
        if floor_log2(x) >= 32 {
            vstd::arithmetic::power2::lemma_pow2_strictly_increases(32, floor_log2(x));
        }
    }
}

/// Number of mips of a full chain over the largest of `width`, `height` and
/// 1: `floor(log2(max)) + 1`.
pub open spec fn spec_pyramid_mip_count(width: u32, height: u32) -> nat {
    floor_log2(crate::graph::passes::hiz_build::max_dim(width, height)) + 1
}

/// Full mip-chain length for a `width x height` texture.
pub fn pyramid_mip_count(width: u32, height: u32) -> (r: u32)
    ensures
        r == spec_pyramid_mip_count(width, height),
        1 <= r <= 32,
        vstd::arithmetic::power2::pow2((r - 1) as nat) <= crate::graph::passes::hiz_build::max_dim(
            width,
            height,
        ) < vstd::arithmetic::power2::pow2(r as nat),
{
    let m = if width >= height { width } else { height };
    let m: u32 = if m >= 1 { m } else { 1 };
    let mut x: u32 = m;
    let mut log: u32 = 0;
    proof {
        lemma_floor_log2_bounded(m as nat);
    }
    while x > 1
        invariant
            1 <= x <= m,
            log + floor_log2(x as nat) == floor_log2(m as nat),
            floor_log2(m as nat) < 32,
        decreases x,
    {
        x = x / 2;
        log = log + 1;
    }
    log + 1
}

/// Temporal bookkeeping and pipelines of the SSGI feature.
pub struct SsgiFeature {
    /// Raw trace, temporal, A-Trous and merge pipelines.
    pub pipelines: ChainPipelines,
    pub full_resolution: (u32, u32),
    pub half_resolution: (u32, u32),
    pub history_buffers_ready: bool,
    pub history_valid: bool,
    pub source_history_valid: bool,
    pub prev_frame_taa_enabled: bool,
    pub prepared_max_steps: u32,
    pub prepared_atrous_passes: u32,
}

/// Template of the shader of each SSGI stage.
pub open spec fn spec_ssgi_stage_shader(stage: ChainStage) -> Seq<char> {
    match stage {
        ChainStage::Trace(_) => "entry/features/ssgi/raw"@,
        ChainStage::Temporal => "entry/features/ssgi/temporal"@,
        ChainStage::Filter => "entry/features/ssgi/atrous_blur"@,
        ChainStage::Merge => "entry/features/ssgi/merge"@,
    }
}

/// The shader template of an SSGI stage.
pub fn ssgi_stage_shader(stage: ChainStage) -> (r: &'static str)
    ensures
        r@ == spec_ssgi_stage_shader(stage),
{
    match stage {
        ChainStage::Trace(_) => "entry/features/ssgi/raw",
        ChainStage::Temporal => "entry/features/ssgi/temporal",
        ChainStage::Filter => "entry/features/ssgi/atrous_blur",
        ChainStage::Merge => "entry/features/ssgi/merge",
    }
}

/// The shader options of an SSGI stage: every stage defines the SSGI
/// uniform struct; the raw trace also gets the scene bindings, the lighting
/// structs and its step count as `ssgi_max_steps`.
pub fn ssgi_stage_options(
    stage: ChainStage,
    struct_definitions: &str,
    binding_wgsl: &str,
    scene_lighting_structs: &str,
) -> (r: ShaderCompilationOptions)
    ensures
        r.wf(),
        r.defines.view() == spec_set(Seq::empty(), "struct_definitions"@, struct_definitions@),
        r.code_blocks.view() == (match stage {
            ChainStage::Trace(m) => spec_set(
                scene_blocks(binding_wgsl@, scene_lighting_structs@),
                "ssgi_max_steps"@,
                spec_decimal(m as nat),
            ),
            _ => Seq::<(Seq<char>, Seq<char>)>::empty(),
        }),
{
    match stage {
        ChainStage::Trace(m) => trace_stage_options(
            struct_definitions,
            binding_wgsl,
            scene_lighting_structs,
            "ssgi_max_steps",
            m,
        ),
        _ => struct_only_options(struct_definitions),
    }
}

/// Half of a dimension, never below 1.
pub open spec fn half_dim(x: u32) -> u32 {
    if x / 2 >= 1 { (x / 2) as u32 } else { 1 }
}

/// The history flags published to the shader for a state.
pub open spec fn spec_history_flags(history_valid: bool, source_history_valid: bool) -> u32 {
    ((if history_valid { HISTORY_FLAG_INDIRECT_VALID } else { 0u32 }) + (if source_history_valid {
        HISTORY_FLAG_SOURCE_VALID
    } else {
        0u32
    })) as u32
}

/// `v` clamped into `[lo, hi]`.
pub open spec fn clamp_u32(v: u32, lo: u32, hi: u32) -> u32 {
    if v < lo { lo } else if v > hi { hi } else { v }
}

impl SsgiFeature {
    /// A freshly created feature: no history, default step and pass budget.
    pub fn new() -> (r: Self)
        ensures
            r.pipelines.wf(),
            r.pipelines.trace_map() == Map::<u32, RenderPipelineId>::empty(),
            r.pipelines.temporal() is None,
            r.pipelines.filter() is None,
            r.pipelines.merge() is None,
            r.full_resolution == (0u32, 0u32),
            r.half_resolution == (0u32, 0u32),
            !r.history_buffers_ready,
            !r.history_valid,
            !r.source_history_valid,
            !r.prev_frame_taa_enabled,
            r.prepared_max_steps == 16,
            r.prepared_atrous_passes == 3,
    {
        SsgiFeature {
            pipelines: ChainPipelines::new(),
            full_resolution: (0, 0),
            half_resolution: (0, 0),
            history_buffers_ready: false,
            history_valid: false,
            source_history_valid: false,
            prev_frame_taa_enabled: false,
            prepared_max_steps: 16,
            prepared_atrous_passes: 3,
        }
    }

    /// Bit set of the valid histories (indirect in bit 0, source in bit 1).
    pub fn history_flags(&self) -> (r: u32)
        ensures
            r == spec_history_flags(self.history_valid, self.source_history_valid),
            (r & HISTORY_FLAG_INDIRECT_VALID != 0) == self.history_valid,
            (r & HISTORY_FLAG_SOURCE_VALID != 0) == self.source_history_valid,
            r < 4,
    {
        let mut flags: u32 = 0;
        if self.history_valid {
            flags = flags | HISTORY_FLAG_INDIRECT_VALID;
        }
        if self.source_history_valid {
            flags = flags | HISTORY_FLAG_SOURCE_VALID;
        }
        assert(0u32 | 1u32 == 1u32 && 0u32 | 2u32 == 2u32 && 1u32 | 2u32 == 3u32) by (bit_vector);
        assert((0u32 & 1u32 == 0) && (1u32 & 1u32 != 0) && (2u32 & 1u32 == 0) && (3u32 & 1u32 != 0))
            by (bit_vector);
        assert((0u32 & 2u32 == 0) && (1u32 & 2u32 == 0) && (2u32 & 2u32 != 0) && (3u32 & 2u32 != 0))
            by (bit_vector);
        flags
    }

    /// Drops every history: the next frame starts temporal accumulation anew.
    pub fn invalidate_history(&mut self)
        ensures
            !final(self).history_valid,
            !final(self).source_history_valid,
            !final(self).prev_frame_taa_enabled,
            final(self).full_resolution == old(self).full_resolution,
            final(self).half_resolution == old(self).half_resolution,
            final(self).history_buffers_ready == old(self).history_buffers_ready,
            final(self).prepared_max_steps == old(self).prepared_max_steps,
            final(self).prepared_atrous_passes == old(self).prepared_atrous_passes,
            *final(self) == ssgi_step(*old(self), SsgiEvent::InvalidateHistory),
    {
        self.history_valid = false;
        self.source_history_valid = false;
        self.prev_frame_taa_enabled = false;
    }

    /// Whether the history targets must be (re)allocated for a frame of
    /// `width x height`: they are missing, or either resolution changed.
    pub open spec fn spec_needs_history_realloc(self, width: u32, height: u32) -> bool {
        !(self.full_resolution == (width, height) && self.half_resolution == (
        half_dim(width), half_dim(height)) && self.history_buffers_ready)
    }

    /// Records a frame of `width x height`. Returns `true` when the history
    /// targets (half-resolution indirect and meta, full-resolution source)
    /// must be reallocated; the feature then adopts the new resolutions and
    /// every history is invalidated. Otherwise nothing changes.
    pub fn ensure_history_buffers(&mut self, width: u32, height: u32) -> (realloc: bool)
        ensures
            realloc == old(self).spec_needs_history_realloc(width, height),
            realloc ==> {
                &&& final(self).full_resolution == (width, height)
                &&& final(self).half_resolution == (half_dim(width), half_dim(height))
                &&& final(self).history_buffers_ready
                &&& !final(self).history_valid
                &&& !final(self).source_history_valid
                &&& !final(self).prev_frame_taa_enabled
                &&& final(self).prepared_max_steps == old(self).prepared_max_steps
                &&& final(self).prepared_atrous_passes == old(self).prepared_atrous_passes
            },
            !realloc ==> *final(self) == *old(self),
            *final(self) == ssgi_step(*old(self), SsgiEvent::EnsureHistoryBuffers(width, height)),
    {
        let hw = if width / 2 >= 1 { width / 2 } else { 1 };
        let hh = if height / 2 >= 1 { height / 2 } else { 1 };
        if self.full_resolution.0 == width && self.full_resolution.1 == height
            && self.half_resolution.0 == hw && self.half_resolution.1 == hh
            && self.history_buffers_ready
        {
            return false;
        }
        self.full_resolution = (width, height);
        self.half_resolution = (hw, hh);
        self.history_buffers_ready = true;
        self.invalidate_history();
        true
    }

    /// Number of A-Trous iterations for a requested count: the request
    /// clamped into `[1, MAX_ATROUS_PASSES]`. The feature remembers it.
    pub fn prepare_atrous_passes(&mut self, requested: u32) -> (passes: u32)
        ensures
            passes == clamp_u32(requested, 1, MAX_ATROUS_PASSES),
            1 <= passes <= MAX_ATROUS_PASSES,
            *final(self) == (SsgiFeature { prepared_atrous_passes: passes, ..*old(self) }),
            *final(self) == ssgi_step(*old(self), SsgiEvent::PrepareAtrousPasses(requested)),
    {
        let passes = if requested < 1 {
            1
        } else if requested > MAX_ATROUS_PASSES {
            MAX_ATROUS_PASSES
        } else {
            requested
        };
        self.prepared_atrous_passes = passes;
        passes
    }

    /// Records the maximum ray-march step count the pipelines were prepared for.
    pub fn set_prepared_max_steps(&mut self, max_steps: u32)
        ensures
            *final(self) == (SsgiFeature { prepared_max_steps: max_steps, ..*old(self) }),
            *final(self) == ssgi_step(*old(self), SsgiEvent::SetPreparedMaxSteps(max_steps)),
    {
        self.prepared_max_steps = max_steps;
    }

    /// Whether the TAA output can stand in for the source-colour history:
    /// the source history must be valid and TAA active both last frame and now.
    pub fn use_taa_source_history(&self, taa_enabled: bool) -> (r: bool)
        ensures
            r == (self.source_history_valid && self.prev_frame_taa_enabled && taa_enabled),
    {
        self.source_history_valid && self.prev_frame_taa_enabled && taa_enabled
    }

    /// Records that this frame's SSGI chain was built: both histories become
    /// valid and the TAA state is remembered for the next frame.
    pub fn finish_frame(&mut self, taa_enabled: bool)
        ensures
            *final(self) == (SsgiFeature {
                history_valid: true,
                source_history_valid: true,
                prev_frame_taa_enabled: taa_enabled,
                ..*old(self)
            }),
            *final(self) == ssgi_step(*old(self), SsgiEvent::FinishFrame(taa_enabled)),
    {
        self.history_valid = true;
        self.source_history_valid = true;
        self.prev_frame_taa_enabled = taa_enabled;
    }
}

/// A state-changing call on the SSGI feature.
#[derive(Debug, Clone, Copy, PartialEq, Eq, Structural)]
pub enum SsgiEvent {
    InvalidateHistory,
    EnsureHistoryBuffers(u32, u32),
    PrepareAtrousPasses(u32),
    SetPreparedMaxSteps(u32),
    FinishFrame(bool),
}

/// The feature after one call.
pub open spec fn ssgi_step(s: SsgiFeature, e: SsgiEvent) -> SsgiFeature {
    match e {
        SsgiEvent::InvalidateHistory => SsgiFeature {
            history_valid: false,
            source_history_valid: false,
            prev_frame_taa_enabled: false,
            ..s
        },
        SsgiEvent::EnsureHistoryBuffers(w, h) => if s.spec_needs_history_realloc(w, h) {
            SsgiFeature {
                full_resolution: (w, h),
                half_resolution: (half_dim(w), half_dim(h)),
                history_buffers_ready: true,
                history_valid: false,
                source_history_valid: false,
                prev_frame_taa_enabled: false,
                ..s
            }
        } else {
            s
        },
        SsgiEvent::PrepareAtrousPasses(r) => SsgiFeature {
            prepared_atrous_passes: clamp_u32(r, 1, MAX_ATROUS_PASSES),
            ..s
        },
        SsgiEvent::SetPreparedMaxSteps(m) => SsgiFeature { prepared_max_steps: m, ..s },
        SsgiEvent::FinishFrame(taa) => SsgiFeature {
            history_valid: true,
            source_history_valid: true,
            prev_frame_taa_enabled: taa,
            ..s
        },
    }
}

/// The feature after a sequence of calls.
pub open spec fn ssgi_run(s: SsgiFeature, events: Seq<SsgiEvent>) -> SsgiFeature
    decreases events.len(),
{
    if events.len() == 0 {
        s
    } else {
        ssgi_step(ssgi_run(s, events.drop_last()), events.last())
    }
}

/// Whether the `j`-th call drops the histories: an invalidation, or a
/// preparation that reallocates the history targets.
pub open spec fn ssgi_drops_history(s: SsgiFeature, events: Seq<SsgiEvent>, j: int) -> bool {
    match events[j] {
        SsgiEvent::InvalidateHistory => true,
        SsgiEvent::EnsureHistoryBuffers(w, h) => ssgi_run(s, events.take(j)).spec_needs_history_realloc(w, h),
        _ => false,
    }
}

/// Some frame was finished after every call that dropped the histories.
pub open spec fn ssgi_finished_since_drop(s: SsgiFeature, events: Seq<SsgiEvent>) -> bool {
    exists|i: int|
        0 <= i < events.len() && events[i] is FinishFrame && forall|j: int|
            i < j < events.len() ==> !#[trigger] ssgi_drops_history(s, events, j)
}

proof fn lemma_ssgi_drops_prefix(s: SsgiFeature, events: Seq<SsgiEvent>, j: int)
    requires
        0 <= j < events.len() - 1,
    ensures
        ssgi_drops_history(s, events, j) == ssgi_drops_history(s, events.drop_last(), j),
{
    assert(events.take(j) =~= events.drop_last().take(j));
}

/// Starting without histories (as a new feature does), after any sequence
/// of calls both histories are valid or neither is, so `history_flags`
/// reports 3 or 0; it reports 3 exactly when a frame was finished after the
/// last call that dropped the histories.
pub proof fn lemma_ssgi_history_valid_iff_finished_since_drop(s: SsgiFeature, events: Seq<SsgiEvent>)
    requires
        !s.history_valid,
        !s.source_history_valid,
    ensures
        ssgi_run(s, events).history_valid == ssgi_run(s, events).source_history_valid,
        ssgi_run(s, events).history_valid <==> ssgi_finished_since_drop(s, events),
        spec_history_flags(ssgi_run(s, events).history_valid, ssgi_run(s, events).source_history_valid)
            == (if ssgi_finished_since_drop(s, events) {
            3u32
        } else {
            0u32
        }),
    decreases events.len(),
{
    if events.len() == 0 {
    } else {
        let p = events.drop_last();
        let n = events.len() - 1;
        lemma_ssgi_history_valid_iff_finished_since_drop(s, p);
        assert(events.take(n) =~= p);
        let dropped = ssgi_drops_history(s, events, n);
        if events[n] is FinishFrame {
            assert(ssgi_run(s, events).history_valid);
            assert(forall|j: int| n < j < events.len() ==> !#[trigger] ssgi_drops_history(s, events, j));
        } else if dropped {
            assert(!ssgi_run(s, events).history_valid);
            assert forall|i: int| 0 <= i < events.len() && events[i] is FinishFrame implies exists|j: int|
                i < j < events.len() && #[trigger] ssgi_drops_history(s, events, j) by {
                assert(ssgi_drops_history(s, events, n));
            }
        } else {
            assert(ssgi_run(s, events).history_valid == ssgi_run(s, p).history_valid);
            assert(ssgi_run(s, events).source_history_valid == ssgi_run(s, p).source_history_valid);
            if ssgi_finished_since_drop(s, p) {
                let i = choose|i: int|
                    0 <= i < p.len() && p[i] is FinishFrame && forall|j: int|
                        i < j < p.len() ==> !#[trigger] ssgi_drops_history(s, p, j);
                assert forall|j: int| i < j < events.len() implies !#[trigger] ssgi_drops_history(s, events, j) by {
                    if j < n {
                        lemma_ssgi_drops_prefix(s, events, j);
                    }
                }
                assert(events[i] is FinishFrame);
            }
            if ssgi_finished_since_drop(s, events) {
                let i = choose|i: int|
                    0 <= i < events.len() && events[i] is FinishFrame && forall|j: int|
                        i < j < events.len() ==> !#[trigger] ssgi_drops_history(s, events, j);
                assert(i < n);
                assert forall|j: int| i < j < p.len() implies !#[trigger] ssgi_drops_history(s, p, j) by {
                    lemma_ssgi_drops_prefix(s, events, j);
                }
                assert(p[i] is FinishFrame);
            }
        }
    }
}

/// The A-Trous step width of iteration `pass_index`: `1 << pass_index`.
pub fn atrous_step_width(pass_index: u32) -> (r: u32)
    requires
        pass_index < MAX_ATROUS_PASSES,
    ensures
        r == vstd::arithmetic::power2::pow2(pass_index as nat),
{
    proof {
        vstd::arithmetic::power2::lemma2_to64();
    }
    if pass_index == 0 {
        1
    } else if pass_index == 1 {
        2
    } else if pass_index == 2 {
        4
    } else {
        8
    }
}

/// Format of the SSGI intermediates.
pub const SSGI_TEXTURE_FORMAT: TextureFormat = TextureFormat::Rgba16Float;

/// A persistent history target imported into the graph: sampled and copied into.
pub fn persistent_texture_desc(width: u32, height: u32, format: TextureFormat) -> (r: TextureDesc)
    ensures
        r == (TextureDesc {
            width,
            height,
            mip_level_count: 1,
            depth_or_array_layers: 1,
            sample_count: 1,
            format,
            usage: USAGE_TEXTURE_BINDING | USAGE_COPY_DST,
        }),
{
    TextureDesc::new_2d(width, height, format, USAGE_TEXTURE_BINDING | USAGE_COPY_DST)
}

/// The passes of the SSGI chain.
#[derive(Debug, Clone, Copy, PartialEq, Eq, Structural)]
pub enum SsgiPass {
    Raw,
    Temporal,
    Atrous { step_width: u32 },
    Merge,
    SaveHistoryIndirect,
    SaveHistoryMeta,
    SaveSourceHistory,
}

/// The SSGI chain for one frame.
pub struct SsgiGraphPlan {
    /// Half-resolution raw indirect lighting.
    pub raw_desc: TextureDesc,
    /// Half-resolution temporal outputs, copied into the histories.
    pub temporal_desc: TextureDesc,
    /// Half-resolution A-Trous outputs.
    pub atrous_desc: TextureDesc,
    /// Full-resolution merged colour.
    pub merged_desc: TextureDesc,
    /// The TAA output stands in for the source history.
    pub use_taa_source_history: bool,
    pub passes: Vec<SsgiPass>,
}

/// The passes for `n` A-Trous iterations: trace, temporal filter, the
/// iterations with doubling step widths, merge, then the three history saves.
pub open spec fn spec_ssgi_passes(n: nat) -> Seq<SsgiPass> {
    seq![SsgiPass::Raw, SsgiPass::Temporal] + Seq::new(
        n,
        |i: int| SsgiPass::Atrous { step_width: vstd::arithmetic::power2::pow2(i as nat) as u32 },
    ) + seq![
        SsgiPass::Merge,
        SsgiPass::SaveHistoryIndirect,
        SsgiPass::SaveHistoryMeta,
        SsgiPass::SaveSourceHistory,
    ]
}

impl SsgiFeature {
    /// The chain for a `width x height` frame: the prepared A-Trous count
    /// (clamped into `[1, MAX_ATROUS_PASSES]`) decides the iterations.
    pub fn plan_graph(&self, width: u32, height: u32, taa_enabled: bool) -> (r: SsgiGraphPlan)
        ensures
            r.raw_desc == (TextureDesc {
                width: half_dim(width),
                height: half_dim(height),
                mip_level_count: 1,
                depth_or_array_layers: 1,
                sample_count: 1,
                format: SSGI_TEXTURE_FORMAT,
                usage: USAGE_RENDER_ATTACHMENT | USAGE_TEXTURE_BINDING,
            }),
            r.temporal_desc == (TextureDesc {
                usage: USAGE_RENDER_ATTACHMENT | USAGE_TEXTURE_BINDING | USAGE_COPY_SRC,
                ..r.raw_desc
            }),
            r.atrous_desc == r.raw_desc,
            r.merged_desc == (TextureDesc {
                width,
                height,
                mip_level_count: 1,
                depth_or_array_layers: 1,
                sample_count: 1,
                format: HDR_TEXTURE_FORMAT,
                usage: USAGE_RENDER_ATTACHMENT | USAGE_TEXTURE_BINDING | USAGE_COPY_SRC,
            }),
            r.use_taa_source_history == (self.source_history_valid && self.prev_frame_taa_enabled && taa_enabled),
            r.passes@ == spec_ssgi_passes(clamp_u32(self.prepared_atrous_passes, 1, MAX_ATROUS_PASSES) as nat),
    {
        let hw = if width / 2 >= 1 { width / 2 } else { 1 };
        let hh = if height / 2 >= 1 { height / 2 } else { 1 };
        let n: u32 = if self.prepared_atrous_passes < 1 {
            1
        } else if self.prepared_atrous_passes > MAX_ATROUS_PASSES {
            MAX_ATROUS_PASSES
        } else {
            self.prepared_atrous_passes
        };
        let mut passes: Vec<SsgiPass> = Vec::new();
        passes.push(SsgiPass::Raw);
        passes.push(SsgiPass::Temporal);
        let mut i: u32 = 0;
        while i < n
            invariant
                i <= n <= MAX_ATROUS_PASSES,
                passes@ == seq![SsgiPass::Raw, SsgiPass::Temporal] + Seq::new(
                    i as nat,
                    |k: int| SsgiPass::Atrous { step_width: vstd::arithmetic::power2::pow2(k as nat) as u32 },
                ),
            decreases n - i,
        {
            let w = atrous_step_width(i);
            passes.push(SsgiPass::Atrous { step_width: w });
            i = i + 1;
            proof {
                assert(passes@ =~= seq![SsgiPass::Raw, SsgiPass::Temporal] + Seq::new(
                    i as nat,
                    |k: int| SsgiPass::Atrous { step_width: vstd::arithmetic::power2::pow2(k as nat) as u32 },
                ));
            }
        }
        passes.push(SsgiPass::Merge);
        passes.push(SsgiPass::SaveHistoryIndirect);
        passes.push(SsgiPass::SaveHistoryMeta);
        passes.push(SsgiPass::SaveSourceHistory);
        proof {
            assert(passes@ =~= spec_ssgi_passes(n as nat));
        }
        let raw_desc = TextureDesc::new_2d(hw, hh, SSGI_TEXTURE_FORMAT, USAGE_RENDER_ATTACHMENT | USAGE_TEXTURE_BINDING);
        SsgiGraphPlan {
            raw_desc,
            temporal_desc: TextureDesc::new_2d(
                hw,
                hh,
                SSGI_TEXTURE_FORMAT,
                USAGE_RENDER_ATTACHMENT | USAGE_TEXTURE_BINDING | USAGE_COPY_SRC,
            ),
            atrous_desc: raw_desc,
            merged_desc: TextureDesc::new_2d(
                width,
                height,
                HDR_TEXTURE_FORMAT,
                USAGE_RENDER_ATTACHMENT | USAGE_TEXTURE_BINDING | USAGE_COPY_SRC,
            ),
            use_taa_source_history: self.source_history_valid && self.prev_frame_taa_enabled && taa_enabled,
            passes,
        }
    }
}

/// After a resize, no history survives: the first frame at the new size
/// reads neither the indirect nor the source history.
pub proof fn lemma_resize_drops_history(s: SsgiFeature, width: u32, height: u32)
    requires
        s.full_resolution != (width, height),
    ensures
        s.spec_needs_history_realloc(width, height),
{
}

/// A second frame at the same size never reallocates.
pub proof fn lemma_same_size_keeps_buffers(s: SsgiFeature, width: u32, height: u32)
    requires
        s.full_resolution == (width, height),
        s.half_resolution == (half_dim(width), half_dim(height)),
        s.history_buffers_ready,
    ensures
        !s.spec_needs_history_realloc(width, height),
{
}

} // verus!
