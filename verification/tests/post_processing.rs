use myth_render::format::TextureFormat;
use myth_render::graph::passes::debug_view::{
    apply_source_defines, transient_layout, DebugViewFeature, DebugViewTransientLayout,
};
use myth_render::graph::passes::present::PresentFeature;
use myth_render::graph::passes::ssao::{ssao_extent, ssao_frame_index, ssao_target_desc, SsaoFeature};
use myth_render::graph::passes::ssss::{apply_vertical_defines, profiles_buffer_size, temp_blur_desc, SsssFeature};
use myth_render::graph::passes::static_binding::StaticBindingTracker;
use myth_render::graph::passes::tone_mapping::{
    apply_pipeline_defines, LutResourceState, ToneMapPrepare, ToneMapStaticLayout, ToneMappingFeature,
};
use myth_render::pipeline::cache::RenderPipelineId;
use myth_render::pipeline::shader_defines::ShaderDefines;
use myth_render::pipeline::shader_gen::ShaderCompilationOptions;

#[test]
fn static_binding_rebuilds_only_for_new_buffers() {
    let mut t = StaticBindingTracker::new();
    assert!(!t.refresh(None));
    assert!(t.refresh(Some(3)));
    assert!(!t.refresh(Some(3)));
    assert!(t.refresh(Some(4)));
    assert!(!t.needs_rebuild(4));
}

#[test]
fn tone_mapping_waits_for_a_loading_lut_once_it_has_a_pipeline() {
    let mut f = ToneMappingFeature::new();
    assert_eq!(f.output_format, TextureFormat::Bgra8UnormSrgb);
    assert_eq!(
        f.begin_prepare(TextureFormat::Rgba8Unorm, Some(LutResourceState::Pending)),
        ToneMapPrepare::Continue { has_lut: false }
    );
    let key = f.pipeline_key(2, false);
    assert_eq!(key.output_format, TextureFormat::Rgba8Unorm);
    f.set_pipeline(key, RenderPipelineId(1));
    assert_eq!(
        f.begin_prepare(TextureFormat::Rgba8Unorm, Some(LutResourceState::Pending)),
        ToneMapPrepare::KeepPrevious
    );
    assert_eq!(
        f.begin_prepare(TextureFormat::Rgba8Unorm, Some(LutResourceState::Ready)),
        ToneMapPrepare::Continue { has_lut: true }
    );
    assert_eq!(
        f.begin_prepare(TextureFormat::Rgba8Unorm, Some(LutResourceState::Unknown)),
        ToneMapPrepare::Continue { has_lut: false }
    );
    assert_eq!(f.cached_pipeline(&key), Some(RenderPipelineId(1)));
    assert_eq!(f.cached_pipeline(&f.pipeline_key(2, true)), None);
}

#[test]
fn tone_mapping_static_group_tracks_buffer_and_lut() {
    let mut f = ToneMappingFeature::new();
    assert!(!f.refresh_static_bind_group(None, false, None));
    assert!(!f.is_prepared());
    assert!(f.refresh_static_bind_group(Some(5), false, None));
    assert!(!f.refresh_static_bind_group(Some(5), false, Some(9)));
    assert!(f.refresh_static_bind_group(Some(5), true, Some(9)));
    assert!(!f.refresh_static_bind_group(Some(5), true, Some(9)));
    assert!(f.refresh_static_bind_group(Some(5), true, Some(10)));
    assert!(f.refresh_static_bind_group(Some(6), true, Some(10)));
    assert_eq!(ToneMappingFeature::static_layout(true), ToneMapStaticLayout::Lut);
    assert_eq!(ToneMappingFeature::static_layout(false), ToneMapStaticLayout::Base);
}

#[test]
fn tone_mapping_defines() {
    let mut d = ShaderDefines::new();
    apply_pipeline_defines(&mut d, true);
    assert_eq!(d.get("USE_LUT"), Some("1".to_string()));
    assert_eq!(d.get("USE_BLUE_NOISE"), Some("1".to_string()));
    let mut e = ShaderDefines::new();
    apply_pipeline_defines(&mut e, false);
    assert_eq!(e.get("USE_LUT"), None);
    assert_eq!(e.len(), 1);
}

#[test]
fn present_recompiles_only_on_format_change() {
    let mut f = PresentFeature::new();
    assert!(f.needs_pipeline(TextureFormat::Bgra8UnormSrgb));
    f.install_pipeline(TextureFormat::Bgra8UnormSrgb, RenderPipelineId(3));
    assert!(!f.needs_pipeline(TextureFormat::Bgra8UnormSrgb));
    assert!(f.needs_pipeline(TextureFormat::Rgba8Unorm));
    assert_eq!(f.current_pipeline(), Some(RenderPipelineId(3)));
}

#[test]
fn debug_view_variant_and_binding() {
    let mut f = DebugViewFeature::new();
    assert!(f.needs_pipeline(TextureFormat::Rgba8Unorm, false));
    f.install_pipeline(TextureFormat::Rgba8Unorm, false, RenderPipelineId(1));
    assert!(!f.needs_pipeline(TextureFormat::Rgba8Unorm, false));
    assert!(f.needs_pipeline(TextureFormat::Rgba8Unorm, true));
    assert!(!f.is_prepared());
    assert!(f.refresh_static_bind_group(Some(2)));
    assert!(f.is_prepared());
    assert_eq!(transient_layout(true), DebugViewTransientLayout::Depth);
    assert_eq!(transient_layout(false), DebugViewTransientLayout::Color);
}

#[test]
fn ssss_uploads_profiles_per_registry_version() {
    let mut f = SsssFeature::new();
    let p = f.extract_and_prepare(0);
    assert!(p.create_profiles_buffer);
    assert!(!p.upload_profiles);
    assert!(p.create_pipelines);
    let q = f.extract_and_prepare(3);
    assert!(!q.create_profiles_buffer);
    assert!(q.upload_profiles);
    assert!(!f.extract_and_prepare(3).upload_profiles);
    f.install_pipelines(RenderPipelineId(1), RenderPipelineId(2));
    assert!(!f.extract_and_prepare(3).create_pipelines);
    assert_eq!(profiles_buffer_size(48), 256 * 48);
    let d = temp_blur_desc(800, 600, TextureFormat::Rgba16Float);
    assert_eq!((d.width, d.height, d.usage), (800, 600, 16 | 4));
    let mut o = ShaderCompilationOptions::new();
    apply_vertical_defines(&mut o);
    assert_eq!(o.defines().get("SSSS_VERTICAL_PASS"), Some("1".to_string()));
}

#[test]
fn ssao_half_resolution_targets() {
    assert_eq!(ssao_extent(1920, 1080), (960, 540));
    assert_eq!(ssao_extent(1, 3), (1, 1));
    let d = ssao_target_desc(801, 601);
    assert_eq!((d.width, d.height, d.format), (400, 300, TextureFormat::R8Unorm));
    assert_eq!(ssao_frame_index(5), 5);
    assert_eq!(ssao_frame_index((1u64 << 32) + 7), 7);
    let mut f = SsaoFeature::new();
    assert!(f.needs_pipelines());
    f.install_pipelines(RenderPipelineId(1), RenderPipelineId(2));
    assert!(!f.needs_pipelines());
    assert!(f.refresh_uniforms_bind_group(Some(1)));
    assert!(!f.refresh_uniforms_bind_group(Some(1)));
}

#[test]
fn depth_sources_get_the_depth_define() {
    let mut depth = ShaderCompilationOptions::new();
    apply_source_defines(&mut depth, true);
    assert_eq!(depth.defines.get("IS_DEPTH"), Some("1".to_string()));
    let mut color = ShaderCompilationOptions::new();
    apply_source_defines(&mut color, false);
    assert_eq!(color.defines.len(), 0);
}
