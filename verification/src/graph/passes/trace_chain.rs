//! Pipelines of a screen-space trace chain: a ray march specialised per
//! maximum step count, temporal accumulation, a spatial filter and the merge
//! into the lit scene. SSR and SSGI each run such a chain.
use vstd::prelude::*;

use crate::format::{TextureFormat, HDR_TEXTURE_FORMAT};
use crate::pipeline::cache::{FastLookup, RenderPipelineId};
use crate::pipeline::pipeline_key::{
    replace_target, spec_replace_target, ColorTargetKey, DepthStencilKey, FullscreenPipelineKey,
    MultisampleKey,
};
use crate::pipeline::shader_defines::spec_set;
use crate::pipeline::shader_gen::{
    decimal_string, scene_blocks, scene_pass_options, spec_decimal, ShaderCompilationOptions,
};

verus! {

/// A stage of the chain.
#[derive(Debug, Clone, Copy, PartialEq, Eq, Structural)]
pub enum ChainStage {
    /// The ray march, compiled for a maximum step count.
    Trace(u32),
    /// Temporal accumulation: writes the filtered signal and its metadata.
    Temporal,
    /// Spatial filter of the accumulated signal.
    Filter,
    /// Merge of the result into the HDR scene color.
    Merge,
}

/// The color targets of a stage: the chain's intermediate format (twice for
/// the temporal stage), the HDR format for the merge; each replacing.
pub open spec fn stage_targets(stage: ChainStage, intermediate: TextureFormat) -> Seq<ColorTargetKey> {
    match stage {
        ChainStage::Temporal => seq![spec_replace_target(intermediate), spec_replace_target(intermediate)],
        ChainStage::Merge => seq![spec_replace_target(HDR_TEXTURE_FORMAT)],
        _ => seq![spec_replace_target(intermediate)],
    }
}

/// The fullscreen pipeline key of a stage compiled to `shader_hash`: its
/// targets, no depth, single sampling.
pub fn stage_pipeline_key(stage: ChainStage, intermediate: TextureFormat, shader_hash: u128) -> (r:
    FullscreenPipelineKey)
    ensures
        r.shader_hash == shader_hash,
        r.color_targets@ == stage_targets(stage, intermediate),
        r.depth_stencil == None::<DepthStencilKey>,
        r.multisample == (MultisampleKey { count: 1, mask: u64::MAX, alpha_to_coverage_enabled: false }),
{
    let mut targets: Vec<ColorTargetKey> = Vec::new();
    match stage {
        ChainStage::Temporal => {
            targets.push(replace_target(intermediate));
            targets.push(replace_target(intermediate));
        },
        ChainStage::Merge => {
            targets.push(replace_target(HDR_TEXTURE_FORMAT));
        },
        _ => {
            targets.push(replace_target(intermediate));
        },
    }
    assert(targets@ =~= stage_targets(stage, intermediate));
    FullscreenPipelineKey::fullscreen(shader_hash, targets, None)
}

/// The stages whose pipeline is missing for a frame marching at most
/// `max_steps` steps, in build order.
pub open spec fn spec_missing_stages(
    trace: Map<u32, RenderPipelineId>,
    temporal: Option<RenderPipelineId>,
    filter: Option<RenderPipelineId>,
    merge: Option<RenderPipelineId>,
    max_steps: u32,
) -> Seq<ChainStage> {
    (if trace.contains_key(max_steps) {
        Seq::empty()
    } else {
        seq![ChainStage::Trace(max_steps)]
    }) + (if temporal is Some {
        Seq::empty()
    } else {
        seq![ChainStage::Temporal]
    }) + (if filter is Some {
        Seq::empty()
    } else {
        seq![ChainStage::Filter]
    }) + (if merge is Some {
        Seq::empty()
    } else {
        seq![ChainStage::Merge]
    })
}

/// Building what is missing completes the chain: once each missing stage
/// has a pipeline, nothing is missing for the same step count.
pub proof fn lemma_installing_missing_completes(
    trace: Map<u32, RenderPipelineId>,
    temporal: Option<RenderPipelineId>,
    filter: Option<RenderPipelineId>,
    merge: Option<RenderPipelineId>,
    max_steps: u32,
    id: RenderPipelineId,
)
    ensures
        spec_missing_stages(
            if trace.contains_key(max_steps) {
                trace
            } else {
                trace.insert(max_steps, id)
            },
            if temporal is Some {
                temporal
            } else {
                Some(id)
            },
            if filter is Some {
                filter
            } else {
                Some(id)
            },
            if merge is Some {
                merge
            } else {
                Some(id)
            },
            max_steps,
        ) == Seq::<ChainStage>::empty(),
{
    assert(spec_missing_stages(
        if trace.contains_key(max_steps) {
            trace
        } else {
            trace.insert(max_steps, id)
        },
        if temporal is Some {
            temporal
        } else {
            Some(id)
        },
        if filter is Some {
            filter
        } else {
            Some(id)
        },
        if merge is Some {
            merge
        } else {
            Some(id)
        },
        max_steps,
    ) =~= Seq::<ChainStage>::empty());
}

/// The chain's pipelines: one trace pipeline per step count, one of each
/// other stage.
pub struct ChainPipelines {
    trace: FastLookup<u32>,
    temporal: Option<RenderPipelineId>,
    filter: Option<RenderPipelineId>,
    merge: Option<RenderPipelineId>,
}

impl ChainPipelines {
    /// Trace pipelines by step count.
    pub closed spec fn trace_map(&self) -> Map<u32, RenderPipelineId> {
        self.trace.view()
    }

    pub closed spec fn temporal(&self) -> Option<RenderPipelineId> {
        self.temporal
    }

    pub closed spec fn filter(&self) -> Option<RenderPipelineId> {
        self.filter
    }

    pub closed spec fn merge(&self) -> Option<RenderPipelineId> {
        self.merge
    }

    pub closed spec fn wf(&self) -> bool {
        self.trace.wf()
    }

    /// No pipeline yet.
    pub fn new() -> (r: Self)
        ensures
            r.wf(),
            r.trace_map() == Map::<u32, RenderPipelineId>::empty(),
            r.temporal() is None,
            r.filter() is None,
            r.merge() is None,
    {
        ChainPipelines { trace: FastLookup::new(), temporal: None, filter: None, merge: None }
    }

    /// The stages to build before a frame marching at most `max_steps`
    /// steps can run.
    pub fn missing_stages(&self, max_steps: u32) -> (r: Vec<ChainStage>)
        requires
            self.wf(),
        ensures
            r@ == spec_missing_stages(
                self.trace_map(),
                self.temporal(),
                self.filter(),
                self.merge(),
                max_steps,
            ),
    {
        let mut r: Vec<ChainStage> = Vec::new();
        if self.trace.get(max_steps).is_none() {
            r.push(ChainStage::Trace(max_steps));
        }
        if self.temporal.is_none() {
            r.push(ChainStage::Temporal);
        }
        if self.filter.is_none() {
            r.push(ChainStage::Filter);
        }
        if self.merge.is_none() {
            r.push(ChainStage::Merge);
        }
        assert(r@ =~= spec_missing_stages(
            self.trace_map(),
            self.temporal(),
            self.filter(),
            self.merge(),
            max_steps,
        ));
        r
    }

    /// Records the pipeline built for `stage`.
    pub fn install(&mut self, stage: ChainStage, id: RenderPipelineId)
        requires
            old(self).wf(),
        ensures
            final(self).wf(),
            final(self).trace_map() == (match stage {
                ChainStage::Trace(m) => old(self).trace_map().insert(m, id),
                _ => old(self).trace_map(),
            }),
            final(self).temporal() == (if stage == ChainStage::Temporal {
                Some(id)
            } else {
                old(self).temporal()
            }),
            final(self).filter() == (if stage == ChainStage::Filter {
                Some(id)
            } else {
                old(self).filter()
            }),
            final(self).merge() == (if stage == ChainStage::Merge {
                Some(id)
            } else {
                old(self).merge()
            }),
    {
        match stage {
            ChainStage::Trace(m) => {
                self.trace.insert(m, id);
            },
            ChainStage::Temporal => {
                self.temporal = Some(id);
            },
            ChainStage::Filter => {
                self.filter = Some(id);
            },
            ChainStage::Merge => {
                self.merge = Some(id);
            },
        }
    }

    /// The pipeline of `stage`, if built.
    pub fn stage_pipeline(&self, stage: ChainStage) -> (r: Option<RenderPipelineId>)
        requires
            self.wf(),
        ensures
            r == (match stage {
                ChainStage::Trace(m) => if self.trace_map().contains_key(m) {
                    Some(self.trace_map()[m])
                } else {
                    None
                },
                ChainStage::Temporal => self.temporal(),
                ChainStage::Filter => self.filter(),
                ChainStage::Merge => self.merge(),
            }),
    {
        match stage {
            ChainStage::Trace(m) => self.trace.get(m),
            ChainStage::Temporal => self.temporal,
            ChainStage::Filter => self.filter,
            ChainStage::Merge => self.merge,
        }
    }
}

/// Shader options of a trace stage: the scene stage's options, plus the
/// step count written in decimal under `steps_block`.
pub fn trace_stage_options(
    struct_definitions: &str,
    binding_wgsl: &str,
    scene_lighting_structs: &str,
    steps_block: &str,
    max_steps: u32,
) -> (r: ShaderCompilationOptions)
    ensures
        r.wf(),
        r.defines.view() == spec_set(Seq::empty(), "struct_definitions"@, struct_definitions@),
        r.code_blocks.view() == spec_set(
            scene_blocks(binding_wgsl@, scene_lighting_structs@),
            steps_block@,
            spec_decimal(max_steps as nat),
        ),
{
    let mut options = scene_pass_options(struct_definitions, binding_wgsl, scene_lighting_structs);
    let steps = decimal_string(max_steps);
    options.inject_code(steps_block, steps.as_str());
    options
}

} // verus!
