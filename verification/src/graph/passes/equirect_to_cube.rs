//! Conversion of a scene's environment source into its base cubemap: when
//! the conversion's bindings are rebuilt, kept or dropped.
use vstd::prelude::*;

use crate::graph::node::TextureNodeId;
use crate::graph::passes::hiz_build::{div_ceil_spec, u32_div_ceil};
use crate::graph::passes::scene_cache::{fresh_part, SceneStateCache};
use crate::pipeline::cache::ComputePipelineId;

verus! {

/// Where a scene's environment cubemap comes from.
#[derive(Debug, Clone, Copy, PartialEq, Eq, Structural, Hash)]
pub enum CubeSourceType {
    Equirectangular,
    Cubemap,
    Procedural,
}

/// The bind group layout the conversion of a source uses.
#[derive(Debug, Clone, Copy, PartialEq, Eq, Structural)]
pub enum SourceLayout {
    Equirect,
    Cubemap,
}

/// The layout for converting `source_type`; a procedural sky is not
/// converted (the atmosphere bakes it).
pub fn layout_for_source(source_type: CubeSourceType) -> (r: Option<SourceLayout>)
    ensures
        r == (match source_type {
            CubeSourceType::Equirectangular => Some(SourceLayout::Equirect),
            CubeSourceType::Cubemap => Some(SourceLayout::Cubemap),
            CubeSourceType::Procedural => None,
        }),
{
    match source_type {
        CubeSourceType::Equirectangular => Some(SourceLayout::Equirect),
        CubeSourceType::Cubemap => Some(SourceLayout::Cubemap),
        CubeSourceType::Procedural => None,
    }
}

/// Workgroups of an 8x8 dispatch over the six faces of a cube of edge `size`.
pub fn cube_face_dispatch(size: u32) -> (r: (u32, u32, u32))
    ensures
        r == (div_ceil_spec(size as nat, 8) as u32, div_ceil_spec(size as nat, 8) as u32, 6u32),
{
    let g = u32_div_ceil(size, 8);
    (g, g, 6)
}

/// What a scene's conversion bindings were built from.
#[derive(Debug, Clone, Copy, PartialEq, Eq, Structural)]
pub struct SceneSourceConvertState {
    pub source_type: CubeSourceType,
    pub source_view_id: u64,
    pub dest_view_id: u64,
}

/// The scene's GPU environment, as the conversion sees it.
#[derive(Debug, Clone, Copy, PartialEq, Eq, Structural)]
pub struct EnvironmentTarget {
    pub source_type: CubeSourceType,
    /// Identity of the base cubemap's storage view.
    pub dest_view_id: u64,
}

/// What preparing a scene did.
#[derive(Debug, Clone, Copy, PartialEq, Eq, Structural)]
pub enum ConvertAction {
    /// The scene has nothing to convert; its state was dropped.
    Dropped,
    /// The source is not available yet; the state is left as it was.
    Waiting,
    /// The bindings must be (re)built from the new state.
    Rebuilt,
    /// The existing bindings are still valid; they were marked used.
    Reused,
}

/// The conversion of environment sources into base cubemaps.
pub struct EquirectToCubeFeature {
    equirect_pipeline_id: Option<ComputePipelineId>,
    cubemap_pipeline_id: Option<ComputePipelineId>,
    scene_states: SceneStateCache<SceneSourceConvertState>,
}

impl EquirectToCubeFeature {
    pub closed spec fn states(&self) -> Map<u32, (u64, SceneSourceConvertState)> {
        self.scene_states.view()
    }

    pub closed spec fn wf(&self) -> bool {
        self.scene_states.wf()
    }

    pub closed spec fn equirect_pipeline(&self) -> Option<ComputePipelineId> {
        self.equirect_pipeline_id
    }

    pub closed spec fn cubemap_pipeline(&self) -> Option<ComputePipelineId> {
        self.cubemap_pipeline_id
    }

    /// A feature with no pipelines and no scene state.
    pub fn new() -> (r: Self)
        ensures
            r.wf(),
            r.equirect_pipeline() is None,
            r.cubemap_pipeline() is None,
            r.states() == Map::<u32, (u64, SceneSourceConvertState)>::empty(),
    {
        EquirectToCubeFeature {
            equirect_pipeline_id: None,
            cubemap_pipeline_id: None,
            scene_states: SceneStateCache::new(),
        }
    }

    /// Whether the pipelines still have to be created: until both exist.
    pub fn needs_pipelines(&self) -> (r: bool)
        ensures
            r == (self.equirect_pipeline() is None || self.cubemap_pipeline() is None),
    {
        self.equirect_pipeline_id.is_none() || self.cubemap_pipeline_id.is_none()
    }

    /// Installs the two conversion pipelines.
    pub fn install_pipelines(&mut self, equirect: ComputePipelineId, cubemap: ComputePipelineId)
        requires
            old(self).wf(),
        ensures
            final(self).wf(),
            final(self).equirect_pipeline() == Some(equirect),
            final(self).cubemap_pipeline() == Some(cubemap),
            final(self).states() == old(self).states(),
    {
        self.equirect_pipeline_id = Some(equirect);
        self.cubemap_pipeline_id = Some(cubemap);
    }

    /// The per-frame preparation of `scene_id`, after stale scenes are
    /// evicted: a scene without a GPU environment, without a source map or
    /// with a procedural source loses its state; a source that does not
    /// resolve yet leaves it alone; otherwise the state is rebuilt when it is
    /// missing or was built from another source type, source view or
    /// destination view, and is marked used when it is still valid.
    pub fn extract_and_prepare(
        &mut self,
        scene_id: u32,
        frame_index: u64,
        environment: Option<EnvironmentTarget>,
        has_source: bool,
        resolved_source_view_id: Option<u64>,
    ) -> (r: ConvertAction)
        requires
            old(self).wf(),
        ensures
            final(self).wf(),
            final(self).equirect_pipeline() == old(self).equirect_pipeline(),
            final(self).cubemap_pipeline() == old(self).cubemap_pipeline(),
            ({
                let pruned = fresh_part(old(self).states(), frame_index);
                match environment {
                    None => r == ConvertAction::Dropped && final(self).states() == pruned.remove(scene_id),
                    Some(env) => if !has_source {
                        r == ConvertAction::Dropped && final(self).states() == pruned.remove(scene_id)
                    } else {
                        match resolved_source_view_id {
                            None => r == ConvertAction::Waiting && final(self).states() == pruned,
                            Some(source_view_id) => if env.source_type == CubeSourceType::Procedural {
                                r == ConvertAction::Dropped && final(self).states() == pruned.remove(scene_id)
                            } else {
                                let next = SceneSourceConvertState {
                                    source_type: env.source_type,
                                    source_view_id,
                                    dest_view_id: env.dest_view_id,
                                };
                                if pruned.contains_key(scene_id) && pruned[scene_id].1 == next {
                                    r == ConvertAction::Reused
                                        && final(self).states() == pruned.insert(scene_id, (frame_index, next))
                                } else {
                                    r == ConvertAction::Rebuilt
                                        && final(self).states() == pruned.insert(scene_id, (frame_index, next))
                                }
                            },
                        }
                    },
                }
            }),
    {
        self.scene_states.prune(frame_index);
        let env = match environment {
            Some(env) => env,
            None => {
                self.scene_states.remove(scene_id);
                return ConvertAction::Dropped;
            },
        };
        if !has_source {
            self.scene_states.remove(scene_id);
            return ConvertAction::Dropped;
        }
        let source_view_id = match resolved_source_view_id {
            Some(id) => id,
            None => return ConvertAction::Waiting,
        };
        if layout_for_source(env.source_type).is_none() {
            self.scene_states.remove(scene_id);
            return ConvertAction::Dropped;
        }
        let next = SceneSourceConvertState {
            source_type: env.source_type,
            source_view_id,
            dest_view_id: env.dest_view_id,
        };
        let needs_rebuild = match self.scene_states.get(scene_id) {
            Some(state) => state.source_type != next.source_type || state.source_view_id
                != next.source_view_id || state.dest_view_id != next.dest_view_id,
            None => true,
        };
        if needs_rebuild {
            self.scene_states.insert(scene_id, frame_index, next);
            ConvertAction::Rebuilt
        } else {
            self.scene_states.touch(scene_id, frame_index);
            ConvertAction::Reused
        }
    }

    /// The conversion pass of `scene_id`, if the environment needs computing
    /// this frame: the pipeline for its source type and the cubemap written.
    /// The scene's state must have been prepared.
    pub fn plan_graph(
        &self,
        scene_id: u32,
        source_type: CubeSourceType,
        base_cube: TextureNodeId,
        needs_compute: bool,
    ) -> (r: Option<(Option<ComputePipelineId>, TextureNodeId)>)
        requires
            self.wf(),
            needs_compute ==> self.states().contains_key(scene_id),
        ensures
            r == (if needs_compute {
                Some(
                    (
                        match source_type {
                            CubeSourceType::Equirectangular => self.equirect_pipeline(),
                            CubeSourceType::Cubemap => self.cubemap_pipeline(),
                            CubeSourceType::Procedural => None,
                        },
                        base_cube,
                    ),
                )
            } else {
                None
            }),
    {
        if !needs_compute {
            return None;
        }
        let pipeline = match source_type {
            CubeSourceType::Equirectangular => self.equirect_pipeline_id,
            CubeSourceType::Cubemap => self.cubemap_pipeline_id,
            CubeSourceType::Procedural => None,
        };
        Some((pipeline, base_cube))
    }
}

} // verus!
