//! Screen Space Reflections: temporal-history bookkeeping and the
//! pipelines of the reflection chain.
use vstd::prelude::*;

use crate::format::{TextureFormat, HDR_TEXTURE_FORMAT};
use crate::graph::node::{TextureDesc, USAGE_COPY_SRC, USAGE_RENDER_ATTACHMENT, USAGE_TEXTURE_BINDING};

use crate::graph::node::TextureNodeId;
use crate::graph::passes::trace_chain::{trace_stage_options, ChainPipelines, ChainStage};
use crate::pipeline::cache::RenderPipelineId;
use crate::pipeline::shader_defines::spec_set;
use crate::pipeline::shader_gen::{
    scene_blocks, scene_pass_options, spec_decimal, struct_only_options, ShaderCompilationOptions,
};

verus! {

/// History flag bit owned by the SSR feature.
pub const SSR_HISTORY_FLAG_VALID: u32 = 1;

/// Outputs produced by the SSR chain, returned for downstream wiring.
#[derive(Debug, Clone, Copy, PartialEq, Eq, Structural)]
pub struct SsrOutputs {
    pub merged_color: TextureNodeId,
    pub raw_reflection: TextureNodeId,
    pub clean_reflection: TextureNodeId,
}

/// Temporal bookkeeping and pipelines of the SSR feature.
pub struct SsrFeature {
    /// Trace, temporal, spatial-filter and merge pipelines.
    pub pipelines: ChainPipelines,
    pub full_resolution: (u32, u32),
    pub history_buffers_ready: bool,
    pub history_valid: bool,
    pub prepared_max_steps: u32,
}

/// The uniform flag word after merging the feature's history bit into
/// `current`: bit 0 replaced, every other bit kept.
pub open spec fn spec_merge_history_flags(current: u32, history_valid: bool) -> u32 {
    (current & !SSR_HISTORY_FLAG_VALID) | (if history_valid { 1u32 } else { 0u32 })
}

impl SsrFeature {
    /// A freshly created feature: no history, default step budget.
    pub fn new() -> (r: Self)
        ensures
            r.pipelines.wf(),
            r.pipelines.trace_map() == Map::<u32, RenderPipelineId>::empty(),
            r.pipelines.temporal() is None,
            r.pipelines.filter() is None,
            r.pipelines.merge() is None,
            r.full_resolution == (0u32, 0u32),
            !r.history_buffers_ready,
            !r.history_valid,
            r.prepared_max_steps == 24,
    {
        SsrFeature {
            pipelines: ChainPipelines::new(),
            full_resolution: (0, 0),
            history_buffers_ready: false,
            history_valid: false,
            prepared_max_steps: 24,
        }
    }

    /// 1 when the reflection history is valid, 0 otherwise.
    pub fn history_flags(&self) -> (r: u32)
        ensures
            r == (if self.history_valid { 1u32 } else { 0u32 }),
    {
        if self.history_valid { 1 } else { 0 }
    }

    /// Drops the reflection history.
    pub fn invalidate_history(&mut self)
        ensures
            *final(self) == (SsrFeature { history_valid: false, ..*old(self) }),
            *final(self) == ssr_step(*old(self), SsrEvent::InvalidateHistory),
    {
        self.history_valid = false;
    }

    /// The flag word to publish given the word `current` found in the SSR
    /// uniforms, and whether it differs from `current` (only then is the
    /// uniform rewritten). The history bit is replaced; every other runtime
    /// bit (such as a camera-cut flag) is preserved.
    pub fn sync_history_flags(&self, current: u32) -> (r: (u32, bool))
        ensures
            r.0 == spec_merge_history_flags(current, self.history_valid),
            r.1 == (r.0 != current),
            (r.0 & SSR_HISTORY_FLAG_VALID != 0) == self.history_valid,
            r.0 & !SSR_HISTORY_FLAG_VALID == current & !SSR_HISTORY_FLAG_VALID,
    {
        let bit = self.history_flags();
        let merged = (current & !SSR_HISTORY_FLAG_VALID) | bit;
        assert(((current & !1u32) | 1u32) & 1u32 != 0) by (bit_vector);
        assert(((current & !1u32) | 0u32) & 1u32 == 0) by (bit_vector);
        assert(((current & !1u32) | 1u32) & !1u32 == current & !1u32) by (bit_vector);
        assert(((current & !1u32) | 0u32) & !1u32 == current & !1u32) by (bit_vector);
        (merged, merged != current)
    }

    /// Records a frame of `width x height`; returns `true` when the history
    /// targets must be (re)allocated (missing, or resolution changed), in
    /// which case the history is invalidated.
    pub fn ensure_history_buffers(&mut self, width: u32, height: u32) -> (realloc: bool)
        ensures
            realloc == !(old(self).full_resolution == (width, height)
                && old(self).history_buffers_ready),
            realloc ==> *final(self) == (SsrFeature {
                full_resolution: (width, height),
                history_buffers_ready: true,
                history_valid: false,
                ..*old(self)
            }),
            !realloc ==> *final(self) == *old(self),
            *final(self) == ssr_step(*old(self), SsrEvent::EnsureHistoryBuffers(width, height)),
    {
        if self.full_resolution.0 == width && self.full_resolution.1 == height
            && self.history_buffers_ready
        {
            return false;
        }
        self.full_resolution = (width, height);
        self.history_buffers_ready = true;
        self.invalidate_history();
        true
    }

    /// Records the maximum ray-march step count the pipelines were prepared for.
    pub fn set_prepared_max_steps(&mut self, max_steps: u32)
        ensures
            *final(self) == (SsrFeature { prepared_max_steps: max_steps, ..*old(self) }),
            *final(self) == ssr_step(*old(self), SsrEvent::SetPreparedMaxSteps(max_steps)),
    {
        self.prepared_max_steps = max_steps;
    }

    /// Records that this frame's SSR chain was built: the history is valid
    /// for the next frame.
    pub fn finish_frame(&mut self)
        ensures
            *final(self) == (SsrFeature { history_valid: true, ..*old(self) }),
            *final(self) == ssr_step(*old(self), SsrEvent::FinishFrame),
    {
        self.history_valid = true;
    }
}

/// Template of the shader of each SSR stage.
pub open spec fn spec_ssr_stage_shader(stage: ChainStage) -> Seq<char> {
    match stage {
        ChainStage::Trace(_) => "entry/post_process/ssr_trace"@,
        ChainStage::Temporal => "entry/post_process/ssr_temporal"@,
        ChainStage::Filter => "entry/post_process/ssr_spatial_filter"@,
        ChainStage::Merge => "entry/post_process/ssr_merge"@,
    }
}

/// The shader template of an SSR stage.
pub fn ssr_stage_shader(stage: ChainStage) -> (r: &'static str)
    ensures
        r@ == spec_ssr_stage_shader(stage),
{
    match stage {
        ChainStage::Trace(_) => "entry/post_process/ssr_trace",
        ChainStage::Temporal => "entry/post_process/ssr_temporal",
        ChainStage::Filter => "entry/post_process/ssr_spatial_filter",
        ChainStage::Merge => "entry/post_process/ssr_merge",
    }
}

/// The shader options of an SSR stage: every stage defines the SSR uniform
/// struct; the trace and merge stages also get the scene bindings and
/// lighting structs, and the trace stage its step count as `ssr_max_steps`.
pub fn ssr_stage_options(
    stage: ChainStage,
    struct_definitions: &str,
    binding_wgsl: &str,
    scene_lighting_structs: &str,
) -> (r: ShaderCompilationOptions)
    ensures
        r.wf(),
        r.defines.view() == spec_set(Seq::empty(), "struct_definitions"@, struct_definitions@),
        r.code_blocks.view() == (match stage {
            ChainStage::Trace(m) => spec_set(
                scene_blocks(binding_wgsl@, scene_lighting_structs@),
                "ssr_max_steps"@,
                spec_decimal(m as nat),
            ),
            ChainStage::Merge => scene_blocks(binding_wgsl@, scene_lighting_structs@),
            _ => Seq::<(Seq<char>, Seq<char>)>::empty(),
        }),
{
    match stage {
        ChainStage::Trace(m) => trace_stage_options(
            struct_definitions,
            binding_wgsl,
            scene_lighting_structs,
            "ssr_max_steps",
            m,
        ),
        ChainStage::Merge => scene_pass_options(struct_definitions, binding_wgsl, scene_lighting_structs),
        _ => struct_only_options(struct_definitions),
    }
}

/// A state-changing call on the SSR feature.
#[derive(Debug, Clone, Copy, PartialEq, Eq, Structural)]
pub enum SsrEvent {
    InvalidateHistory,
    EnsureHistoryBuffers(u32, u32),
    SetPreparedMaxSteps(u32),
    FinishFrame,
}

/// Whether preparing a `width x height` frame reallocates (and so drops)
/// the history.
pub open spec fn ssr_needs_realloc(s: SsrFeature, width: u32, height: u32) -> bool {
    !(s.full_resolution == (width, height) && s.history_buffers_ready)
}

/// The feature after one call.
pub open spec fn ssr_step(s: SsrFeature, e: SsrEvent) -> SsrFeature {
    match e {
        SsrEvent::InvalidateHistory => SsrFeature { history_valid: false, ..s },
        SsrEvent::EnsureHistoryBuffers(w, h) => if ssr_needs_realloc(s, w, h) {
            SsrFeature {
                full_resolution: (w, h),
                history_buffers_ready: true,
                history_valid: false,
                ..s
            }
        } else {
            s
        },
        SsrEvent::SetPreparedMaxSteps(m) => SsrFeature { prepared_max_steps: m, ..s },
        SsrEvent::FinishFrame => SsrFeature { history_valid: true, ..s },
    }
}

/// The feature after a sequence of calls.
pub open spec fn ssr_run(s: SsrFeature, events: Seq<SsrEvent>) -> SsrFeature
    decreases events.len(),
{
    if events.len() == 0 {
        s
    } else {
        ssr_step(ssr_run(s, events.drop_last()), events.last())
    }
}

/// Whether the `j`-th call drops the history: an invalidation, or a
/// preparation that reallocates the history targets.
pub open spec fn ssr_drops_history(s: SsrFeature, events: Seq<SsrEvent>, j: int) -> bool {
    match events[j] {
        SsrEvent::InvalidateHistory => true,
        SsrEvent::EnsureHistoryBuffers(w, h) => ssr_needs_realloc(ssr_run(s, events.take(j)), w, h),
        _ => false,
    }
}

/// Some frame was finished after every call that dropped the history.
pub open spec fn ssr_finished_since_drop(s: SsrFeature, events: Seq<SsrEvent>) -> bool {
    exists|i: int|
        0 <= i < events.len() && events[i] == SsrEvent::FinishFrame && forall|j: int|
            i < j < events.len() ==> !#[trigger] ssr_drops_history(s, events, j)
}

proof fn lemma_ssr_drops_prefix(s: SsrFeature, events: Seq<SsrEvent>, j: int)
    requires
        0 <= j < events.len() - 1,
    ensures
        ssr_drops_history(s, events, j) == ssr_drops_history(s, events.drop_last(), j),
{
    assert(events.take(j) =~= events.drop_last().take(j));
}

/// Starting without history (as a new feature does), the history is valid
/// after a sequence of calls exactly when a frame was finished after the
/// last call that dropped it; `history_flags` then reports 1, else 0.
pub proof fn lemma_ssr_history_valid_iff_finished_since_drop(s: SsrFeature, events: Seq<SsrEvent>)
    requires
        !s.history_valid,
    ensures
        ssr_run(s, events).history_valid <==> ssr_finished_since_drop(s, events),
    decreases events.len(),
{
    if events.len() == 0 {
    } else {
        let p = events.drop_last();
        let n = events.len() - 1;
        lemma_ssr_history_valid_iff_finished_since_drop(s, p);
        assert(events.take(n) =~= p);
        let dropped = ssr_drops_history(s, events, n);
        if events[n] == SsrEvent::FinishFrame {
            assert(ssr_run(s, events).history_valid);
            assert(forall|j: int| n < j < events.len() ==> !#[trigger] ssr_drops_history(s, events, j));
        } else if dropped {
            assert(!ssr_run(s, events).history_valid);
            assert forall|i: int| 0 <= i < events.len() && events[i] == SsrEvent::FinishFrame implies exists|j: int|
                i < j < events.len() && #[trigger] ssr_drops_history(s, events, j) by {
                assert(ssr_drops_history(s, events, n));
            }
        } else {
            assert(ssr_run(s, events).history_valid == ssr_run(s, p).history_valid);
            if ssr_finished_since_drop(s, p) {
                let i = choose|i: int|
                    0 <= i < p.len() && p[i] == SsrEvent::FinishFrame && forall|j: int|
                        i < j < p.len() ==> !#[trigger] ssr_drops_history(s, p, j);
                assert forall|j: int| i < j < events.len() implies !#[trigger] ssr_drops_history(s, events, j) by {
                    if j < n {
                        lemma_ssr_drops_prefix(s, events, j);
                    }
                }
                assert(events[i] == SsrEvent::FinishFrame);
            }
            if ssr_finished_since_drop(s, events) {
                let i = choose|i: int|
                    0 <= i < events.len() && events[i] == SsrEvent::FinishFrame && forall|j: int|
                        i < j < events.len() ==> !#[trigger] ssr_drops_history(s, events, j);
                assert(i < n);
                assert forall|j: int| i < j < p.len() implies !#[trigger] ssr_drops_history(s, p, j) by {
                    lemma_ssr_drops_prefix(s, events, j);
                }
                assert(p[i] == SsrEvent::FinishFrame);
            }
        }
    }
}

/// Format of the SSR intermediates.
pub const SSR_TEXTURE_FORMAT: TextureFormat = TextureFormat::Rgba16Float;

/// The passes of the SSR chain, in order.
#[derive(Debug, Clone, Copy, PartialEq, Eq, Structural)]
pub enum SsrPass {
    Trace,
    Temporal,
    Resolve,
    Merge,
    SaveHistoryReflection,
    SaveHistoryMeta,
}

/// The SSR chain for one frame: full-resolution intermediates.
#[derive(Debug, Clone, Copy, PartialEq, Eq, Structural)]
pub struct SsrGraphPlan {
    pub raw_desc: TextureDesc,
    pub temporal_desc: TextureDesc,
    pub clean_desc: TextureDesc,
    pub merged_desc: TextureDesc,
}

/// The chain: trace, temporal filter, spatial resolve, merge, then the two
/// history saves.
pub fn ssr_passes() -> (r: Vec<SsrPass>)
    ensures
        r@ == seq![
            SsrPass::Trace,
            SsrPass::Temporal,
            SsrPass::Resolve,
            SsrPass::Merge,
            SsrPass::SaveHistoryReflection,
            SsrPass::SaveHistoryMeta,
        ],
{
    let r = vec![
        SsrPass::Trace,
        SsrPass::Temporal,
        SsrPass::Resolve,
        SsrPass::Merge,
        SsrPass::SaveHistoryReflection,
        SsrPass::SaveHistoryMeta,
    ];
    assert(r@ =~= seq![
        SsrPass::Trace,
        SsrPass::Temporal,
        SsrPass::Resolve,
        SsrPass::Merge,
        SsrPass::SaveHistoryReflection,
        SsrPass::SaveHistoryMeta,
    ]);
    r
}

/// The intermediates of a `width x height` frame.
pub fn ssr_graph_plan(width: u32, height: u32) -> (r: SsrGraphPlan)
    ensures
        r.raw_desc == (TextureDesc {
            width,
            height,
            mip_level_count: 1,
            depth_or_array_layers: 1,
            sample_count: 1,
            format: SSR_TEXTURE_FORMAT,
            usage: USAGE_RENDER_ATTACHMENT | USAGE_TEXTURE_BINDING,
        }),
        r.temporal_desc == (TextureDesc { usage: USAGE_RENDER_ATTACHMENT | USAGE_TEXTURE_BINDING | USAGE_COPY_SRC, ..r.raw_desc }),
        r.clean_desc == r.raw_desc,
        r.merged_desc == (TextureDesc { format: HDR_TEXTURE_FORMAT, ..r.temporal_desc }),
{
    let raw_desc = TextureDesc::new_2d(width, height, SSR_TEXTURE_FORMAT, USAGE_RENDER_ATTACHMENT | USAGE_TEXTURE_BINDING);
    SsrGraphPlan {
        raw_desc,
        temporal_desc: TextureDesc::new_2d(
            width,
            height,
            SSR_TEXTURE_FORMAT,
            USAGE_RENDER_ATTACHMENT | USAGE_TEXTURE_BINDING | USAGE_COPY_SRC,
        ),
        clean_desc: raw_desc,
        merged_desc: TextureDesc::new_2d(
            width,
            height,
            HDR_TEXTURE_FORMAT,
            USAGE_RENDER_ATTACHMENT | USAGE_TEXTURE_BINDING | USAGE_COPY_SRC,
        ),
    }
}

/// Syncing twice in a row changes nothing the second time.
pub proof fn lemma_sync_history_flags_idempotent(current: u32, valid: bool)
    ensures
        spec_merge_history_flags(spec_merge_history_flags(current, valid), valid)
            == spec_merge_history_flags(current, valid),
{
    let b: u32 = if valid { 1u32 } else { 0u32 };
    assert(b == 0 || b == 1);
    assert(((((current & !1u32) | 1u32) & !1u32) | 1u32) == ((current & !1u32) | 1u32)) by (bit_vector);
    assert(((((current & !1u32) | 0u32) & !1u32) | 0u32) == ((current & !1u32) | 0u32)) by (bit_vector);
}

} // verus!
