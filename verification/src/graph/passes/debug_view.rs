//! Debug visualisation of intermediate targets: pipeline variant per output
//! format and source kind, and the static uniforms bind group.
use vstd::prelude::*;

use crate::format::TextureFormat;
use crate::graph::passes::static_binding::{spec_refreshed, StaticBindingTracker};
use crate::pipeline::cache::RenderPipelineId;
use crate::pipeline::shader_gen::ShaderCompilationOptions;
use crate::pipeline::shader_defines::spec_set;

verus! {

/// The group-1 layout: a depth source is sampled as depth.
#[derive(Debug, Clone, Copy, PartialEq, Eq, Structural)]
pub enum DebugViewTransientLayout {
    Color,
    Depth,
}

/// The transient layout for a source of the given kind.
pub fn transient_layout(is_depth: bool) -> (r: DebugViewTransientLayout)
    ensures
        r == (if is_depth { DebugViewTransientLayout::Depth } else { DebugViewTransientLayout::Color }),
{
    if is_depth {
        DebugViewTransientLayout::Depth
    } else {
        DebugViewTransientLayout::Color
    }
}

/// Marks the shader options of a depth source with `IS_DEPTH`.
pub fn apply_source_defines(options: &mut ShaderCompilationOptions, is_depth: bool)
    requires
        old(options).wf(),
    ensures
        final(options).wf(),
        final(options).code_blocks.view() == old(options).code_blocks.view(),
        final(options).defines.view() == (if is_depth {
            spec_set(old(options).defines.view(), "IS_DEPTH"@, "1"@)
        } else {
            old(options).defines.view()
        }),
{
    if is_depth {
        options.add_define("IS_DEPTH", "1");
    }
}

/// The debug view feature.
pub struct DebugViewFeature {
    l1_cache_format: Option<TextureFormat>,
    l1_cache_is_depth: Option<bool>,
    pipeline_id: Option<RenderPipelineId>,
    static_binding: StaticBindingTracker,
}

impl DebugViewFeature {
    pub closed spec fn cached_variant(&self) -> (Option<TextureFormat>, Option<bool>) {
        (self.l1_cache_format, self.l1_cache_is_depth)
    }

    pub closed spec fn pipeline(&self) -> Option<RenderPipelineId> {
        self.pipeline_id
    }

    pub closed spec fn binding(&self) -> StaticBindingTracker {
        self.static_binding
    }

    /// Nothing compiled or bound.
    pub fn new() -> (r: Self)
        ensures
            r.cached_variant() == (None::<TextureFormat>, None::<bool>),
            r.pipeline() is None,
            r.binding() == (StaticBindingTracker { built: false, last_buffer_id: 0 }),
    {
        DebugViewFeature {
            l1_cache_format: None,
            l1_cache_is_depth: None,
            pipeline_id: None,
            static_binding: StaticBindingTracker::new(),
        }
    }

    /// Whether the pipeline must be (re)compiled: the output format or the
    /// source kind changed.
    pub fn needs_pipeline(&self, output_format: TextureFormat, is_depth: bool) -> (r: bool)
        ensures
            r == (self.cached_variant().0 != Some(output_format) || self.cached_variant().1 != Some(is_depth)),
    {
        let format_differs = match self.l1_cache_format {
            Some(f) => f != output_format,
            None => true,
        };
        let kind_differs = match self.l1_cache_is_depth {
            Some(d) => d != is_depth,
            None => true,
        };
        format_differs || kind_differs
    }

    /// Records the pipeline compiled for `output_format` and source kind.
    pub fn install_pipeline(&mut self, output_format: TextureFormat, is_depth: bool, id: RenderPipelineId)
        ensures
            final(self).cached_variant() == (Some(output_format), Some(is_depth)),
            final(self).pipeline() == Some(id),
            final(self).binding() == old(self).binding(),
    {
        self.l1_cache_format = Some(output_format);
        self.l1_cache_is_depth = Some(is_depth);
        self.pipeline_id = Some(id);
    }

    /// Rebuilds (records) the static bind group when the uniform buffer is
    /// known and the group is missing or stale; says whether it did.
    pub fn refresh_static_bind_group(&mut self, uniforms_buffer_id: Option<u64>) -> (r: bool)
        ensures
            final(self).cached_variant() == old(self).cached_variant(),
            final(self).pipeline() == old(self).pipeline(),
            r == (match uniforms_buffer_id {
                Some(id) => !old(self).binding().built || old(self).binding().last_buffer_id != id,
                None => false,
            }),
            final(self).binding() == (match uniforms_buffer_id {
                Some(id) => spec_refreshed(old(self).binding(), id),
                None => old(self).binding(),
            }),
    {
        self.static_binding.refresh(uniforms_buffer_id)
    }

    /// The pass can be added to the graph: a pipeline and static bind group exist.
    pub fn is_prepared(&self) -> (r: bool)
        ensures
            r == (self.pipeline() is Some && self.binding().built),
    {
        self.pipeline_id.is_some() && self.static_binding.built
    }
}

} // verus!
