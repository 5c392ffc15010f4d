//! Screen-space ambient occlusion: half-resolution targets, pipelines and
//! the static uniforms bind group.
use vstd::prelude::*;

use crate::format::TextureFormat;
use crate::graph::node::{TextureDesc, USAGE_RENDER_ATTACHMENT, USAGE_TEXTURE_BINDING};
use crate::graph::passes::static_binding::{spec_refreshed, StaticBindingTracker};
use crate::pipeline::cache::RenderPipelineId;

verus! {

/// Format of the occlusion targets.
pub const SSAO_TEXTURE_FORMAT: TextureFormat = TextureFormat::R8Unorm;

/// Occlusion is computed at half resolution, at least one texel each way.
pub fn ssao_extent(width: u32, height: u32) -> (r: (u32, u32))
    ensures
        r.0 == (if width / 2 >= 1 { width / 2 } else { 1 }),
        r.1 == (if height / 2 >= 1 { height / 2 } else { 1 }),
{
    let hw = width / 2;
    let hh = height / 2;
    (if hw >= 1 { hw } else { 1 }, if hh >= 1 { hh } else { 1 })
}

/// The raw and blurred occlusion targets: half resolution, one channel.
pub fn ssao_target_desc(width: u32, height: u32) -> (r: TextureDesc)
    ensures
        r == (TextureDesc {
            width: if width / 2 >= 1 { (width / 2) as u32 } else { 1 },
            height: if height / 2 >= 1 { (height / 2) as u32 } else { 1 },
            mip_level_count: 1,
            depth_or_array_layers: 1,
            sample_count: 1,
            format: TextureFormat::R8Unorm,
            usage: USAGE_RENDER_ATTACHMENT | USAGE_TEXTURE_BINDING,
        }),
{
    let (w, h) = ssao_extent(width, height);
    TextureDesc::new_2d(w, h, SSAO_TEXTURE_FORMAT, USAGE_RENDER_ATTACHMENT | USAGE_TEXTURE_BINDING)
}

/// The frame index the noise pattern is rotated by: the low 32 bits.
pub fn ssao_frame_index(frame_index: u64) -> (r: u32)
    ensures
        r == frame_index % 0x1_0000_0000,
{
    assert(frame_index as u32 == frame_index % 0x1_0000_0000) by (bit_vector);
    frame_index as u32
}

/// The SSAO feature.
pub struct SsaoFeature {
    raw_pipeline: Option<RenderPipelineId>,
    blur_pipeline: Option<RenderPipelineId>,
    uniforms_binding: StaticBindingTracker,
}

impl SsaoFeature {
    pub closed spec fn pipelines(&self) -> (Option<RenderPipelineId>, Option<RenderPipelineId>) {
        (self.raw_pipeline, self.blur_pipeline)
    }

    pub closed spec fn binding(&self) -> StaticBindingTracker {
        self.uniforms_binding
    }

    /// Nothing created or bound.
    pub fn new() -> (r: Self)
        ensures
            r.pipelines() == (None::<RenderPipelineId>, None::<RenderPipelineId>),
            r.binding() == (StaticBindingTracker { built: false, last_buffer_id: 0 }),
    {
        SsaoFeature { raw_pipeline: None, blur_pipeline: None, uniforms_binding: StaticBindingTracker::new() }
    }

    /// Whether the pipelines still have to be created.
    pub fn needs_pipelines(&self) -> (r: bool)
        ensures
            r == self.pipelines().0 is None,
    {
        self.raw_pipeline.is_none()
    }

    /// Installs the raw and blur pipelines.
    pub fn install_pipelines(&mut self, raw: RenderPipelineId, blur: RenderPipelineId)
        ensures
            final(self).pipelines() == (Some(raw), Some(blur)),
            final(self).binding() == old(self).binding(),
    {
        self.raw_pipeline = Some(raw);
        self.blur_pipeline = Some(blur);
    }

    /// Rebuilds (records) the uniforms bind group when the uniform buffer is
    /// known and the group is missing or stale; says whether it did.
    pub fn refresh_uniforms_bind_group(&mut self, uniforms_buffer_id: Option<u64>) -> (r: bool)
        ensures
            final(self).pipelines() == old(self).pipelines(),
            r == (match uniforms_buffer_id {
                Some(id) => !old(self).binding().built || old(self).binding().last_buffer_id != id,
                None => false,
            }),
            final(self).binding() == (match uniforms_buffer_id {
                Some(id) => spec_refreshed(old(self).binding(), id),
                None => old(self).binding(),
            }),
    {
        self.uniforms_binding.refresh(uniforms_buffer_id)
    }
}

} // verus!
