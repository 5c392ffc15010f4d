//! Presentation blit to the surface: its pipeline follows the surface format.
use vstd::prelude::*;

use crate::format::TextureFormat;
use crate::pipeline::cache::RenderPipelineId;

verus! {

/// The present pass: one pipeline, recompiled when the surface format changes.
pub struct PresentFeature {
    l1_cache_key: Option<TextureFormat>,
    pipeline_id: Option<RenderPipelineId>,
}

impl PresentFeature {
    pub closed spec fn cached_format(&self) -> Option<TextureFormat> {
        self.l1_cache_key
    }

    pub closed spec fn pipeline(&self) -> Option<RenderPipelineId> {
        self.pipeline_id
    }

    /// No pipeline yet.
    pub fn new() -> (r: Self)
        ensures
            r.cached_format() is None,
            r.pipeline() is None,
    {
        PresentFeature { l1_cache_key: None, pipeline_id: None }
    }

    /// Whether the pipeline must be (re)created for `surface_format`.
    pub fn needs_pipeline(&self, surface_format: TextureFormat) -> (r: bool)
        ensures
            r == (self.cached_format() != Some(surface_format)),
    {
        match self.l1_cache_key {
            Some(f) => f != surface_format,
            None => true,
        }
    }

    /// Records the pipeline created for `surface_format`.
    pub fn install_pipeline(&mut self, surface_format: TextureFormat, id: RenderPipelineId)
        ensures
            final(self).cached_format() == Some(surface_format),
            final(self).pipeline() == Some(id),
    {
        self.l1_cache_key = Some(surface_format);
        self.pipeline_id = Some(id);
    }

    /// The pipeline the pass draws with, once prepared.
    pub fn current_pipeline(&self) -> (r: Option<RenderPipelineId>)
        ensures
            r == self.pipeline(),
    {
        self.pipeline_id
    }
}

} // verus!
