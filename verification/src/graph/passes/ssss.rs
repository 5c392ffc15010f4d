//! Screen-space subsurface scattering: profile uploads and the two blur passes.
use vstd::prelude::*;

use crate::format::TextureFormat;
use crate::graph::node::{TextureDesc, USAGE_RENDER_ATTACHMENT, USAGE_TEXTURE_BINDING};
use crate::pipeline::cache::RenderPipelineId;
use crate::pipeline::shader_gen::ShaderCompilationOptions;
use crate::pipeline::shader_defines::spec_set;

verus! {

/// Number of subsurface profiles the profile buffer holds.
pub const MAX_SSS_PROFILES: u64 = 256;

/// Bytes of the profile buffer for profiles of `profile_size` bytes.
pub fn profiles_buffer_size(profile_size: u64) -> (r: u64)
    requires
        profile_size <= u32::MAX,
    ensures
        r == MAX_SSS_PROFILES * profile_size,
{
    MAX_SSS_PROFILES * profile_size
}

/// What this frame's preparation must do on the GPU.
#[derive(Debug, Clone, Copy, PartialEq, Eq, Structural)]
pub struct SsssPrepare {
    pub create_profiles_buffer: bool,
    pub upload_profiles: bool,
    pub create_pipelines: bool,
}

/// The SSSS feature.
pub struct SsssFeature {
    horizontal_pipeline: Option<RenderPipelineId>,
    vertical_pipeline: Option<RenderPipelineId>,
    has_profiles_buffer: bool,
    last_registry_version: u64,
}

impl SsssFeature {
    pub closed spec fn pipelines(&self) -> (Option<RenderPipelineId>, Option<RenderPipelineId>) {
        (self.horizontal_pipeline, self.vertical_pipeline)
    }

    pub closed spec fn has_buffer(&self) -> bool {
        self.has_profiles_buffer
    }

    /// The profile-registry version last uploaded.
    pub closed spec fn uploaded_version(&self) -> u64 {
        self.last_registry_version
    }

    /// Nothing created or uploaded; version 0 counts as uploaded.
    pub fn new() -> (r: Self)
        ensures
            r.pipelines() == (None::<RenderPipelineId>, None::<RenderPipelineId>),
            !r.has_buffer(),
            r.uploaded_version() == 0,
    {
        SsssFeature {
            horizontal_pipeline: None,
            vertical_pipeline: None,
            has_profiles_buffer: false,
            last_registry_version: 0,
        }
    }

    /// Prepares a frame whose profile registry is at `registry_version`: the
    /// profile buffer is created once, the profiles are uploaded whenever the
    /// registry version differs from the one uploaded, and the pipelines are
    /// created once.
    pub fn extract_and_prepare(&mut self, registry_version: u64) -> (r: SsssPrepare)
        ensures
            r == (SsssPrepare {
                create_profiles_buffer: !old(self).has_buffer(),
                upload_profiles: old(self).uploaded_version() != registry_version,
                create_pipelines: old(self).pipelines().0 is None,
            }),
            final(self).has_buffer(),
            final(self).uploaded_version() == registry_version,
            final(self).pipelines() == old(self).pipelines(),
    {
        let create_profiles_buffer = !self.has_profiles_buffer;
        self.has_profiles_buffer = true;
        let upload_profiles = self.last_registry_version != registry_version;
        if upload_profiles {
            self.last_registry_version = registry_version;
        }
        SsssPrepare { create_profiles_buffer, upload_profiles, create_pipelines: self.horizontal_pipeline.is_none() }
    }

    /// Installs the horizontal and vertical blur pipelines.
    pub fn install_pipelines(&mut self, horizontal: RenderPipelineId, vertical: RenderPipelineId)
        ensures
            final(self).pipelines() == (Some(horizontal), Some(vertical)),
            final(self).has_buffer() == old(self).has_buffer(),
            final(self).uploaded_version() == old(self).uploaded_version(),
    {
        self.horizontal_pipeline = Some(horizontal);
        self.vertical_pipeline = Some(vertical);
    }
}

/// The vertical blur is the horizontal shader with `SSSS_VERTICAL_PASS`.
pub fn apply_vertical_defines(options: &mut ShaderCompilationOptions)
    requires
        old(options).wf(),
    ensures
        final(options).wf(),
        final(options).code_blocks.view() == old(options).code_blocks.view(),
        final(options).defines.view() == spec_set(old(options).defines.view(), "SSSS_VERTICAL_PASS"@, "1"@),
{
    options.add_define("SSSS_VERTICAL_PASS", "1");
}

/// The intermediate of the horizontal blur: full resolution, HDR.
pub fn temp_blur_desc(width: u32, height: u32, hdr_format: TextureFormat) -> (r: TextureDesc)
    ensures
        r == (TextureDesc {
            width,
            height,
            mip_level_count: 1,
            depth_or_array_layers: 1,
            sample_count: 1,
            format: hdr_format,
            usage: USAGE_RENDER_ATTACHMENT | USAGE_TEXTURE_BINDING,
        }),
{
    TextureDesc::new_2d(width, height, hdr_format, USAGE_RENDER_ATTACHMENT | USAGE_TEXTURE_BINDING)
}

} // verus!
