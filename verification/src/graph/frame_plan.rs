//! Per-frame feature planning: from the frame's inputs, decide which
//! features are prepared and which intermediates the frame needs.
use vstd::prelude::*;

use crate::graph::render_state::DebugViewTarget;
use crate::settings::{ClusteredShadingMode, RenderPath};

verus! {

/// Everything a frame's planning depends on, as plain values.
#[derive(Debug, Clone, Copy, PartialEq, Eq, Structural)]
pub struct FrameInputs {
    pub width: u32,
    pub height: u32,
    /// Render path of the GPU context.
    pub render_path: RenderPath,
    /// MSAA sample count in effect for this frame.
    pub msaa_samples: u32,
    pub clustered_shading: ClusteredShadingMode,
    pub local_light_count: u32,
    pub ssgi_enabled: bool,
    pub ssao_enabled: bool,
    pub sss_enabled: bool,
    pub ssr_enabled: bool,
    pub bloom_enabled: bool,
    pub has_env_map: bool,
    pub needs_skybox: bool,
    pub procedural_background: bool,
    pub taa_enabled: bool,
    /// TAA is on and asks for a sharpening pass.
    pub taa_sharpen: bool,
    pub fxaa_enabled: bool,
    pub debug_view: DebugViewTarget,
}

/// The features a frame prepares and the intermediates it produces.
#[derive(Debug, Clone, Copy, PartialEq, Eq, Structural)]
pub struct FramePlan {
    pub high_fidelity: bool,
    pub clustered_lighting: bool,
    pub ssgi: bool,
    pub ssao: bool,
    pub needs_feature_id: bool,
    pub needs_normal: bool,
    pub needs_velocity: bool,
    pub bloom: bool,
    pub environment_conversion: bool,
    pub atmosphere: bool,
    pub skybox: bool,
    /// The skybox renders into the HDR target (otherwise the surface format).
    pub skybox_hdr: bool,
    pub taa: bool,
    pub cas: bool,
    pub fxaa: bool,
    pub prepass: bool,
    /// SSGI is not running on a high-fidelity frame: drop its history.
    pub ssgi_invalidate: bool,
    pub ssss: bool,
    pub msaa_sync: bool,
    pub tone_mapping: bool,
    pub debug_view: bool,
    pub debug_view_is_depth: bool,
}

/// The plan of a frame with the given inputs.
pub open spec fn spec_plan_frame(i: FrameInputs) -> FramePlan {
    let hf = i.render_path == RenderPath::HighFidelity;
    let clustered = i.clustered_shading.spec_is_enabled(i.local_light_count) && i.local_light_count > 0;
    let ssgi = i.ssgi_enabled && hf && i.msaa_samples <= 1;
    let ssao = i.ssao_enabled && hf;
    let feature_id = hf && (i.sss_enabled || i.ssr_enabled);
    let dbg_normal = i.debug_view == DebugViewTarget::SceneNormal;
    let dbg_velocity = i.debug_view == DebugViewTarget::Velocity;
    FramePlan {
        high_fidelity: hf,
        clustered_lighting: clustered,
        ssgi,
        ssao,
        needs_feature_id: feature_id,
        needs_normal: ssao || ssgi || feature_id || dbg_normal,
        needs_velocity: i.taa_enabled || ssgi || dbg_velocity,
        bloom: i.bloom_enabled && hf,
        environment_conversion: i.has_env_map,
        atmosphere: i.procedural_background,
        skybox: i.needs_skybox,
        skybox_hdr: hf,
        taa: hf && i.taa_enabled,
        cas: hf && i.taa_enabled && i.taa_sharpen,
        fxaa: hf && i.fxaa_enabled,
        prepass: hf,
        ssgi_invalidate: hf && !ssgi,
        ssss: hf,
        msaa_sync: hf && i.msaa_samples > 1 && i.sss_enabled,
        tone_mapping: hf,
        debug_view: hf && i.debug_view != DebugViewTarget::Disabled,
        debug_view_is_depth: i.debug_view == DebugViewTarget::SceneDepth || i.debug_view
            == DebugViewTarget::ClusterHeatmap,
    }
}

/// Plans a frame. A frame with a zero-sized surface is skipped (`None`).
pub fn plan_frame(i: &FrameInputs) -> (r: Option<FramePlan>)
    ensures
        (i.width == 0 || i.height == 0) ==> r.is_none(),
        (i.width != 0 && i.height != 0) ==> r == Some(spec_plan_frame(*i)),
        r matches Some(p) ==> p.bloom == (i.bloom_enabled && i.render_path == RenderPath::HighFidelity),
{
    if i.width == 0 || i.height == 0 {
        return None;
    }
    let hf = i.render_path.supports_post_processing();
    let clustered = i.clustered_shading.is_enabled(i.local_light_count) && i.local_light_count > 0;
    let ssgi = i.ssgi_enabled && hf && i.msaa_samples <= 1;
    let ssao = i.ssao_enabled && hf;
    let feature_id = hf && (i.sss_enabled || i.ssr_enabled);
    let dbg_normal = i.debug_view == DebugViewTarget::SceneNormal;
    let dbg_velocity = i.debug_view == DebugViewTarget::Velocity;
    Some(FramePlan {
        high_fidelity: hf,
        clustered_lighting: clustered,
        ssgi,
        ssao,
        needs_feature_id: feature_id,
        needs_normal: ssao || ssgi || feature_id || dbg_normal,
        needs_velocity: i.taa_enabled || ssgi || dbg_velocity,
        bloom: i.bloom_enabled && hf,
        environment_conversion: i.has_env_map,
        atmosphere: i.procedural_background,
        skybox: i.needs_skybox,
        skybox_hdr: hf,
        taa: hf && i.taa_enabled,
        cas: hf && i.taa_enabled && i.taa_sharpen,
        fxaa: hf && i.fxaa_enabled,
        prepass: hf,
        ssgi_invalidate: hf && !ssgi,
        ssss: hf,
        msaa_sync: hf && i.msaa_samples > 1 && i.sss_enabled,
        tone_mapping: hf,
        debug_view: hf && i.debug_view != DebugViewTarget::Disabled,
        debug_view_is_depth: i.debug_view.is_depth(),
    })
}

/// The basic-forward path never runs a post-processing feature.
pub proof fn lemma_basic_forward_has_no_post_processing(i: FrameInputs)
    requires
        i.render_path == RenderPath::BasicForward,
    ensures
        ({
            let p = spec_plan_frame(i);
            !p.ssgi && !p.ssao && !p.bloom && !p.taa && !p.cas && !p.fxaa && !p.prepass && !p.ssss
                && !p.msaa_sync && !p.tone_mapping && !p.debug_view && !p.needs_feature_id
                && !p.skybox_hdr
        }),
{
}

/// SSGI never runs with hardware MSAA.
pub proof fn lemma_ssgi_excludes_msaa(i: FrameInputs)
    requires
        i.msaa_samples > 1,
    ensures
        !spec_plan_frame(i).ssgi,
{
}

/// Every screen-space feature that runs has the intermediates it reads:
/// SSAO and SSGI get normals, SSGI and TAA get velocity.
pub proof fn lemma_features_get_their_inputs(i: FrameInputs)
    ensures
        ({
            let p = spec_plan_frame(i);
            &&& p.ssao ==> p.needs_normal
            &&& p.ssgi ==> p.needs_normal && p.needs_velocity
            &&& p.taa ==> p.needs_velocity
            &&& p.needs_feature_id ==> p.needs_normal
            &&& p.cas ==> p.taa
        }),
{
}

/// Clustered lighting never runs without local lights.
pub proof fn lemma_no_clustering_without_lights(i: FrameInputs)
    requires
        i.local_light_count == 0,
    ensures
        !spec_plan_frame(i).clustered_lighting,
{
}

/// What each prepared feature depends on, over every input: bloom, SSAO,
/// TAA (with CAS when sharpening), FXAA, the prepass, SSSS and tone mapping
/// run on the high-fidelity path when asked for, whatever the MSAA sample
/// count; SSGI additionally needs a single-sampled frame; clustered lighting
/// needs local lights and the policy's consent; MSAA sync runs only with
/// MSAA and subsurface scattering on the high-fidelity path; a basic-forward
/// frame runs none of the post-processing.
pub proof fn lemma_plan_feature_conditions(i: FrameInputs)
    ensures
        spec_plan_frame(i).high_fidelity == (i.render_path == RenderPath::HighFidelity),
        spec_plan_frame(i).bloom == (i.bloom_enabled && i.render_path == RenderPath::HighFidelity),
        spec_plan_frame(i).ssao == (i.ssao_enabled && i.render_path == RenderPath::HighFidelity),
        spec_plan_frame(i).ssgi == (i.ssgi_enabled && i.render_path == RenderPath::HighFidelity
            && i.msaa_samples <= 1),
        spec_plan_frame(i).taa == (i.taa_enabled && i.render_path == RenderPath::HighFidelity),
        spec_plan_frame(i).cas == (i.taa_enabled && i.taa_sharpen && i.render_path
            == RenderPath::HighFidelity),
        spec_plan_frame(i).fxaa == (i.fxaa_enabled && i.render_path == RenderPath::HighFidelity),
        spec_plan_frame(i).prepass == (i.render_path == RenderPath::HighFidelity),
        spec_plan_frame(i).ssss == (i.render_path == RenderPath::HighFidelity),
        spec_plan_frame(i).tone_mapping == (i.render_path == RenderPath::HighFidelity),
        spec_plan_frame(i).clustered_lighting == (i.local_light_count > 0
            && i.clustered_shading.spec_is_enabled(i.local_light_count)),
        spec_plan_frame(i).msaa_sync == (i.render_path == RenderPath::HighFidelity && i.msaa_samples > 1
            && i.sss_enabled),
        spec_plan_frame(i).skybox == i.needs_skybox,
        spec_plan_frame(i).atmosphere == i.procedural_background,
        spec_plan_frame(i).environment_conversion == i.has_env_map,
{
}

/// The MSAA sample count changes only what depends on sampling: two frames
/// that differ in nothing but the sample count plan the same bloom, SSAO,
/// TAA, FXAA and tone mapping.
pub proof fn lemma_msaa_leaves_post_processing(i: FrameInputs, samples: u32)
    ensures
        ({
            let j = FrameInputs { msaa_samples: samples, ..i };
            &&& spec_plan_frame(j).bloom == spec_plan_frame(i).bloom
            &&& spec_plan_frame(j).ssao == spec_plan_frame(i).ssao
            &&& spec_plan_frame(j).taa == spec_plan_frame(i).taa
            &&& spec_plan_frame(j).fxaa == spec_plan_frame(i).fxaa
            &&& spec_plan_frame(j).tone_mapping == spec_plan_frame(i).tone_mapping
        }),
{
}

} // verus!
