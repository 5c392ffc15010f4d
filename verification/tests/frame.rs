use myth_render::graph::frame_plan::{plan_frame, FrameInputs};
use myth_render::pipeline::cache::PipelineCache;
use myth_render::pipeline::pipeline_key::FullscreenPipelineKey;
use myth_render::graph::render_state::{DebugViewMode, DebugViewTarget};
use myth_render::renderer::{
    max_extracted_light_count, readback_buffer_needs_alloc, readback_layout, readback_precheck,
    strip_row_padding, ReadbackError, Renderer,
};
use myth_render::settings::{ClusteredShadingMode, RenderPath, RendererSettings};

fn inputs() -> FrameInputs {
    FrameInputs {
        width: 1280,
        height: 720,
        render_path: RenderPath::HighFidelity,
        msaa_samples: 1,
        clustered_shading: ClusteredShadingMode::Auto { threshold: 16 },
        local_light_count: 20,
        ssgi_enabled: true,
        ssao_enabled: true,
        sss_enabled: false,
        ssr_enabled: false,
        bloom_enabled: true,
        has_env_map: false,
        needs_skybox: true,
        procedural_background: false,
        taa_enabled: true,
        taa_sharpen: true,
        fxaa_enabled: false,
        debug_view: DebugViewTarget::Disabled,
    }
}

#[test]
fn zero_sized_frames_are_skipped() {
    let mut i = inputs();
    i.width = 0;
    assert!(plan_frame(&i).is_none());
}

#[test]
fn high_fidelity_frame_plan() {
    let p = plan_frame(&inputs()).unwrap();
    assert!(p.high_fidelity);
    assert!(p.clustered_lighting);
    assert!(p.ssgi);
    assert!(p.ssao);
    assert!(p.needs_normal);
    assert!(p.needs_velocity);
    assert!(p.taa && p.cas);
    assert!(!p.debug_view);
}

#[test]
fn msaa_excludes_ssgi_and_basic_forward_drops_post() {
    let mut i = inputs();
    i.msaa_samples = 4;
    let p = plan_frame(&i).unwrap();
    assert!(!p.ssgi);
    assert!(p.ssgi_invalidate);
    i.render_path = RenderPath::BasicForward;
    let q = plan_frame(&i).unwrap();
    assert!(!q.high_fidelity && !q.ssao && !q.tone_mapping && !q.bloom);
}

#[test]
fn debug_view_targets() {
    assert_eq!(DebugViewTarget::from_mode(DebugViewMode::Depth), DebugViewTarget::SceneDepth);
    assert_eq!(DebugViewTarget::from_mode(DebugViewMode::Albedo), DebugViewTarget::Disabled);
    assert_eq!(DebugViewTarget::SsaoRaw.view_mode(), 1);
    assert_eq!(DebugViewTarget::ClusterHeatmap.view_mode(), 5);
    assert!(DebugViewTarget::ClusterHeatmap.is_depth());
    assert!(!DebugViewTarget::SceneNormal.is_depth());
}

#[test]
fn readback_checks_in_order() {
    assert_eq!(readback_precheck(false, false, None), Err(ReadbackError::NotInitialized));
    assert_eq!(readback_precheck(true, false, Some(4)), Err(ReadbackError::NoHeadlessTarget));
    assert_eq!(readback_precheck(true, true, None), Err(ReadbackError::UnsupportedFormat));
    assert_eq!(readback_precheck(true, true, Some(4)), Ok(4));
    assert!(readback_buffer_needs_alloc(0, 1024));
    assert!(!readback_buffer_needs_alloc(1024, 1024));
}

#[test]
fn readback_rows_are_unpadded() {
    let l = readback_layout(3, 2, 4);
    assert_eq!(l.unpadded_bytes_per_row, 12);
    assert_eq!(l.padded_bytes_per_row, 256);
    assert_eq!(l.buffer_size, 512);
    let mut mapped = vec![0u8; 512];
    for c in 0..12 {
        mapped[c] = c as u8;
        mapped[256 + c] = 100 + c as u8;
    }
    let pixels = strip_row_padding(&mapped, &l);
    assert_eq!(pixels.len(), 24);
    assert_eq!(pixels[11], 11);
    assert_eq!(pixels[12], 100);
}

#[test]
fn light_count_limit() {
    assert_eq!(max_extracted_light_count(1 << 20, 64), (1 << 20) / 64);
    assert_eq!(max_extracted_light_count(1 << 20, 8), (1 << 20) / 16);
}

#[test]
fn renderer_settings_updates() {
    let mut r = Renderer::new(RendererSettings::default());
    assert!(!r.is_initialized());
    assert!(r.begin_init(800, 600));
    r.attach_context(1, 0);
    assert!(r.is_initialized());
    assert!(!r.begin_init(1, 1));
    assert_eq!(r.size(), (800, 600));
    let mut s = r.settings();
    s.vsync = false;
    s.path = RenderPath::BasicForward;
    let u = r.update_settings(s);
    assert_eq!(u.vsync, Some(false));
    assert!(u.render_path_changed);
    assert!(!u.clustered_shading_changed);
    assert_eq!(r.render_path(), RenderPath::BasicForward);
    let again = r.update_settings(s);
    assert_eq!(again.vsync, None);
    assert!(!again.render_path_changed);
    let c = r.set_clustered_shading_mode(ClusteredShadingMode::ForceOn);
    assert!(c.clustered_shading_changed);
    assert!(r.sync_msaa_samples(4));
    assert!(!r.sync_msaa_samples(4));
}

#[test]
fn set_render_path_only_switches_when_different() {
    let mut r = Renderer::new(RendererSettings::default());
    assert!(r.begin_init(64, 64));
    r.attach_context(1, 0);
    let same = r.set_render_path(r.render_path());
    assert!(!same.render_path_changed);
    assert_eq!(same.vsync, None);
    let other = if r.render_path() == RenderPath::BasicForward { RenderPath::HighFidelity } else { RenderPath::BasicForward };
    let u = r.set_render_path(other);
    assert!(u.render_path_changed);
    assert_eq!(r.render_path(), other);
}

#[test]
fn begin_frame_skips_uninitialised_or_empty_surface() {
    let mut r = Renderer::new(RendererSettings::default());
    assert!(r.begin_frame_plan(&inputs()).is_none());
    assert!(r.begin_init(0, 720));
    r.attach_context(1, 7);
    assert!(r.begin_frame_plan(&inputs()).is_none());
    assert_eq!(r.context.unwrap().pipeline_settings_version, 7);
    r.resize(640, 360);
    let mut i = inputs();
    i.msaa_samples = 4;
    i.render_path = RenderPath::BasicForward;
    let plan = r.begin_frame_plan(&i).unwrap();
    let mut expected = i;
    expected.width = 640;
    expected.height = 360;
    expected.render_path = r.context.unwrap().render_path;
    assert_eq!(Some(plan), plan_frame(&expected));
    assert_eq!(r.context.unwrap().msaa_samples, 4);
    assert_eq!(r.context.unwrap().pipeline_settings_version, 8);
}

#[test]
fn clearing_the_cache_drops_registered_layouts() {
    let mut c: PipelineCache<String, String, u32> = PipelineCache::new();
    let key = FullscreenPipelineKey::fullscreen(1, vec![], None);
    let id = c.get_or_create_fullscreen(&key, |_| "p".to_string());
    c.register_render_layouts(id, vec![10]);
    c.clear();
    let again = c.get_or_create_fullscreen(&key, |_| "q".to_string());
    assert_eq!(again, id);
    c.register_render_layouts(again, vec![20, 30]);
    assert_eq!(*c.get_tracked_layout(again, 0), 20);
    assert_eq!(*c.get_tracked_layout(again, 1), 30);
}
