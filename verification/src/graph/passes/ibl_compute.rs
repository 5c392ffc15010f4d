//! Prefiltered environment (PMREM) generation: pipeline variant, per-mip
//! parameters, and when a scene's parameter buffers are rebuilt.
use vstd::prelude::*;

use crate::graph::node::TextureNodeId;
use crate::graph::passes::equirect_to_cube::CubeSourceType;
use crate::graph::passes::scene_cache::{fresh_part, SceneStateCache};
use crate::pipeline::cache::ComputePipelineId;

verus! {

/// Importance samples per texel for sources that change rarely.
pub const STATIC_PMREM_SAMPLE_COUNT: u32 = 4096;

/// Importance samples per texel for a procedural sky rebaked as it changes.
pub const DYNAMIC_PMREM_SAMPLE_COUNT: u32 = 64;

/// The prefiltered cubemap the IBL pass wrote this frame, if it ran.
#[derive(Debug, Clone, Copy, PartialEq, Eq, Structural)]
pub struct IblGraphOutput {
    pub updated_pmrem: Option<TextureNodeId>,
}

/// Quality variant of the PMREM pipeline.
#[derive(Debug, Clone, Copy, PartialEq, Eq, Structural, Hash)]
pub enum IblPipelineVariant {
    Static,
    Dynamic,
}

/// A procedural sky is filtered with the cheap variant; image sources with
/// the high-quality one.
pub fn pipeline_variant(source_type: CubeSourceType) -> (r: IblPipelineVariant)
    ensures
        r == (if source_type == CubeSourceType::Procedural {
            IblPipelineVariant::Dynamic
        } else {
            IblPipelineVariant::Static
        }),
{
    match source_type {
        CubeSourceType::Procedural => IblPipelineVariant::Dynamic,
        CubeSourceType::Equirectangular | CubeSourceType::Cubemap => IblPipelineVariant::Static,
    }
}

/// The sample count a variant's pipeline is specialised with.
pub fn sample_count(variant: IblPipelineVariant) -> (r: u32)
    ensures
        r == (match variant {
            IblPipelineVariant::Static => STATIC_PMREM_SAMPLE_COUNT,
            IblPipelineVariant::Dynamic => DYNAMIC_PMREM_SAMPLE_COUNT,
        }),
{
    match variant {
        IblPipelineVariant::Static => STATIC_PMREM_SAMPLE_COUNT,
        IblPipelineVariant::Dynamic => DYNAMIC_PMREM_SAMPLE_COUNT,
    }
}

/// Edge of mip `mip` of a cube of edge `size`: halved per level, at least 1.
pub open spec fn spec_mip_size(size: u32, mip: u32) -> u32 {
    let s = (size as nat / vstd::arithmetic::power2::pow2(mip as nat)) as u32;
    if s >= 1 { s } else { 1 }
}

/// `size >> mip`, at least 1.
pub fn mip_size(size: u32, mip: u32) -> (r: u32)
    requires
        mip < 32,
    ensures
        r == spec_mip_size(size, mip),
        r >= 1,
{
    let s = size >> mip;
    proof {
        vstd::bits::lemma_u32_shr_is_div(size, mip);
    }
    if s >= 1 { s } else { 1 }
}

/// The roughness of mip `mip` is `mip / roughness_denominator`: mip levels
/// spread roughness evenly from 0 to 1, with a one-level chain at 0.
pub fn roughness_denominator(mip_levels: u32) -> (r: u32)
    ensures
        r == (if mip_levels >= 2 { mip_levels - 1 } else { 1 }),
        r >= 1,
{
    let d = mip_levels.saturating_sub(1);
    if d >= 1 { d } else { 1 }
}

/// The uniform parameters of one mip level, as integers: the roughness is
/// `mip / denominator`, and the mip edge is `mip_size` texels.
#[derive(Debug, Clone, Copy, PartialEq, Eq, Structural)]
pub struct IblMipParams {
    pub mip: u32,
    pub roughness_denominator: u32,
    pub mip_size: u32,
}

/// The parameters of every mip level of a PMREM of edge `pmrem_size` with
/// `mip_levels` levels.
pub fn mip_params(pmrem_size: u32, mip_levels: u32) -> (r: Vec<IblMipParams>)
    requires
        mip_levels <= 32,
    ensures
        r@.len() == mip_levels,
        forall|m: int|
            0 <= m < mip_levels ==> #[trigger] r@[m] == (IblMipParams {
                mip: m as u32,
                roughness_denominator: if mip_levels >= 2 { (mip_levels - 1) as u32 } else { 1 },
                mip_size: spec_mip_size(pmrem_size, m as u32),
            }),
{
    let denominator = roughness_denominator(mip_levels);
    let mut out: Vec<IblMipParams> = Vec::new();
    let mut mip: u32 = 0;
    while mip < mip_levels
        invariant
            mip <= mip_levels <= 32,
            denominator == (if mip_levels >= 2 { (mip_levels - 1) as u32 } else { 1 }),
            out@.len() == mip,
            forall|m: int|
                0 <= m < mip ==> #[trigger] out@[m] == (IblMipParams {
                    mip: m as u32,
                    roughness_denominator: denominator,
                    mip_size: spec_mip_size(pmrem_size, m as u32),
                }),
        decreases mip_levels - mip,
    {
        let size = mip_size(pmrem_size, mip);
        out.push(IblMipParams { mip, roughness_denominator: denominator, mip_size: size });
        mip = mip + 1;
    }
    out
}

/// What a scene's PMREM bindings were built from.
#[derive(Debug, PartialEq, Eq)]
pub struct IblSceneState {
    pub base_cube_view_id: u64,
    pub pmrem_view_ids: Vec<u64>,
    pub pmrem_size: u32,
    pub pipeline_variant: IblPipelineVariant,
}

/// The view of a scene state: its fields, the view identities as a sequence.
pub open spec fn spec_ibl_state(
    base_cube_view_id: u64,
    pmrem_view_ids: Seq<u64>,
    pmrem_size: u32,
    variant: IblPipelineVariant,
) -> (u64, Seq<u64>, u32, IblPipelineVariant) {
    (base_cube_view_id, pmrem_view_ids, pmrem_size, variant)
}

impl IblSceneState {
    pub open spec fn view(&self) -> (u64, Seq<u64>, u32, IblPipelineVariant) {
        spec_ibl_state(self.base_cube_view_id, self.pmrem_view_ids@, self.pmrem_size, self.pipeline_variant)
    }
}

/// Whether two identity lists are equal.
fn ids_equal(a: &Vec<u64>, b: &Vec<u64>) -> (r: bool)
    ensures
        r == (a@ == b@),
{
    if a.len() != b.len() {
        return false;
    }
    let mut i: usize = 0;
    while i < a.len()
        invariant
            a@.len() == b@.len(),
            i <= a@.len(),
            forall|j: int| 0 <= j < i ==> a@[j] == b@[j],
        decreases a@.len() - i,
    {
        if a[i] != b[i] {
            return false;
        }
        i = i + 1;
    }
    assert(a@ =~= b@);
    true
}

/// The scene's GPU environment, as the IBL pass sees it.
pub struct IblTarget {
    pub source_type: CubeSourceType,
    pub base_cube_view_id: u64,
    /// Identities of the PMREM's per-mip storage views.
    pub pmrem_view_ids: Vec<u64>,
    pub pmrem_size: u32,
    pub mip_levels: u32,
}

/// What preparing a scene did.
#[derive(Debug, PartialEq, Eq)]
pub enum IblAction {
    /// The scene has no GPU environment; its state was dropped.
    Dropped,
    /// The per-mip parameter buffers must be rebuilt with these parameters.
    Rebuilt(Vec<IblMipParams>),
    /// The existing buffers are still valid; they were marked used.
    Reused,
}

/// PMREM generation for every scene.
pub struct IblComputeFeature {
    static_pipeline: Option<ComputePipelineId>,
    dynamic_pipeline: Option<ComputePipelineId>,
    scene_states: SceneStateCache<IblSceneState>,
}

impl IblComputeFeature {
    /// Per-scene states with their last-used frames, by view.
    pub closed spec fn states(&self) -> Map<u32, (u64, (u64, Seq<u64>, u32, IblPipelineVariant))> {
        self.scene_states.view().map_values(|e: (u64, IblSceneState)| (e.0, e.1.view()))
    }

    pub closed spec fn wf(&self) -> bool {
        self.scene_states.wf()
    }

    /// The pipeline of `variant`, once created.
    pub closed spec fn pipeline(&self, variant: IblPipelineVariant) -> Option<ComputePipelineId> {
        match variant {
            IblPipelineVariant::Static => self.static_pipeline,
            IblPipelineVariant::Dynamic => self.dynamic_pipeline,
        }
    }

    /// A feature with no pipelines and no scene state.
    pub fn new() -> (r: Self)
        ensures
            r.wf(),
            r.pipeline(IblPipelineVariant::Static) is None,
            r.pipeline(IblPipelineVariant::Dynamic) is None,
            r.states() == Map::<u32, (u64, (u64, Seq<u64>, u32, IblPipelineVariant))>::empty(),
    {
        let r = IblComputeFeature {
            static_pipeline: None,
            dynamic_pipeline: None,
            scene_states: SceneStateCache::new(),
        };
        assert(r.states() =~= Map::<u32, (u64, (u64, Seq<u64>, u32, IblPipelineVariant))>::empty());
        r
    }

    /// Whether the pipeline of `variant` still has to be created.
    pub fn needs_pipeline(&self, variant: IblPipelineVariant) -> (r: bool)
        ensures
            r == self.pipeline(variant) is None,
    {
        match variant {
            IblPipelineVariant::Static => self.static_pipeline.is_none(),
            IblPipelineVariant::Dynamic => self.dynamic_pipeline.is_none(),
        }
    }

    /// Installs the pipeline of `variant`.
    pub fn install_pipeline(&mut self, variant: IblPipelineVariant, id: ComputePipelineId)
        requires
            old(self).wf(),
        ensures
            final(self).wf(),
            final(self).pipeline(variant) == Some(id),
            forall|v: IblPipelineVariant| v != variant ==> final(self).pipeline(v) == old(self).pipeline(v),
            final(self).states() == old(self).states(),
    {
        match variant {
            IblPipelineVariant::Static => self.static_pipeline = Some(id),
            IblPipelineVariant::Dynamic => self.dynamic_pipeline = Some(id),
        }
    }

    /// The per-frame preparation of `scene_id`, after stale scenes are
    /// evicted: a scene without a GPU environment loses its state; otherwise
    /// the state is rebuilt (with the parameters of every mip level) when it
    /// is missing or was built from another base cubemap view, PMREM size,
    /// set of PMREM views or pipeline variant, and is marked used when it is
    /// still valid.
    pub fn extract_and_prepare(&mut self, scene_id: u32, frame_index: u64, target: Option<IblTarget>) -> (r: IblAction)
        requires
            old(self).wf(),
            target matches Some(t) ==> t.mip_levels <= 32,
        ensures
            final(self).wf(),
            forall|v: IblPipelineVariant| final(self).pipeline(v) == old(self).pipeline(v),
            ({
                let pruned = fresh_part(old(self).states(), frame_index);
                match target {
                    None => r == IblAction::Dropped && final(self).states() == pruned.remove(scene_id),
                    Some(t) => {
                        let next = spec_ibl_state(
                            t.base_cube_view_id,
                            t.pmrem_view_ids@,
                            t.pmrem_size,
                            if t.source_type == CubeSourceType::Procedural {
                                IblPipelineVariant::Dynamic
                            } else {
                                IblPipelineVariant::Static
                            },
                        );
                        &&& final(self).states() == pruned.insert(scene_id, (frame_index, next))
                        &&& if pruned.contains_key(scene_id) && pruned[scene_id].1 == next {
                            r == IblAction::Reused
                        } else {
                            r matches IblAction::Rebuilt(params) && params@.len() == t.mip_levels
                                && forall|m: int|
                                0 <= m < t.mip_levels ==> #[trigger] params@[m] == (IblMipParams {
                                    mip: m as u32,
                                    roughness_denominator: if t.mip_levels >= 2 {
                                        (t.mip_levels - 1) as u32
                                    } else {
                                        1
                                    },
                                    mip_size: spec_mip_size(t.pmrem_size, m as u32),
                                })
                        }
                    },
                }
            }),
    {
        self.scene_states.prune(frame_index);
        let ghost pruned = self.scene_states.view();
        let t = match target {
            Some(t) => t,
            None => {
                self.scene_states.remove(scene_id);
                proof {
                    assert(self.states() =~= fresh_part(old(self).states(), frame_index).remove(scene_id));
                }
                return IblAction::Dropped;
            },
        };
        let variant = pipeline_variant(t.source_type);
        let needs_rebuild = match self.scene_states.get(scene_id) {
            Some(state) => state.base_cube_view_id != t.base_cube_view_id || state.pmrem_size
                != t.pmrem_size || !ids_equal(&state.pmrem_view_ids, &t.pmrem_view_ids)
                || state.pipeline_variant != variant,
            None => true,
        };
        let ghost next = spec_ibl_state(t.base_cube_view_id, t.pmrem_view_ids@, t.pmrem_size, variant);
        proof {
            assert(fresh_part(old(self).states(), frame_index) =~= pruned.map_values(
                |e: (u64, IblSceneState)| (e.0, e.1.view()),
            ));
        }
        if needs_rebuild {
            let params = mip_params(t.pmrem_size, t.mip_levels);
            let state = IblSceneState {
                base_cube_view_id: t.base_cube_view_id,
                pmrem_view_ids: t.pmrem_view_ids,
                pmrem_size: t.pmrem_size,
                pipeline_variant: variant,
            };
            self.scene_states.insert(scene_id, frame_index, state);
            proof {
                assert(self.states() =~= fresh_part(old(self).states(), frame_index).insert(scene_id, (frame_index, next)));
            }
            IblAction::Rebuilt(params)
        } else {
            self.scene_states.touch(scene_id, frame_index);
            proof {
                assert(self.states() =~= fresh_part(old(self).states(), frame_index).insert(scene_id, (frame_index, next)));
            }
            IblAction::Reused
        }
    }

    /// The PMREM pass of `scene_id`, if the environment needs computing this
    /// frame: the pipeline of the variant its state was built with. The
    /// scene's state must have been prepared.
    pub fn plan_graph(&self, scene_id: u32, pmrem: TextureNodeId, needs_compute: bool) -> (r: (
        Option<ComputePipelineId>,
        IblGraphOutput,
    ))
        requires
            self.wf(),
            needs_compute ==> self.states().contains_key(scene_id),
        ensures
            r == (if needs_compute {
                (self.pipeline(self.states()[scene_id].1.3), IblGraphOutput { updated_pmrem: Some(pmrem) })
            } else {
                (None, IblGraphOutput { updated_pmrem: None })
            }),
    {
        if !needs_compute {
            return (None, IblGraphOutput { updated_pmrem: None });
        }
        let state = self.scene_states.get(scene_id).unwrap();
        let pipeline = match state.pipeline_variant {
            IblPipelineVariant::Static => self.static_pipeline,
            IblPipelineVariant::Dynamic => self.dynamic_pipeline,
        };
        (pipeline, IblGraphOutput { updated_pmrem: Some(pmrem) })
    }
}

} // verus!
