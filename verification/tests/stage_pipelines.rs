use myth_render::format::{TextureFormat, HDR_TEXTURE_FORMAT};
use myth_render::graph::passes::skybox::{
    skybox_fullscreen_key, skybox_shader_options, ProceduralStarboxKind, SkyboxPipelineKey, SkyboxVariant,
};
use myth_render::graph::passes::ssgi::{ssgi_stage_options, ssgi_stage_shader, SsgiFeature};
use myth_render::graph::passes::ssr::{ssr_stage_options, ssr_stage_shader, SsrFeature, SSR_TEXTURE_FORMAT};
use myth_render::graph::passes::tone_mapping::{tone_mapping_fullscreen_key, tone_mapping_shader_options};
use myth_render::graph::passes::trace_chain::{stage_pipeline_key, ChainStage};
use myth_render::pipeline::cache::RenderPipelineId;
use myth_render::pipeline::gpu_state::{BlendFactor, CompareFunction};
use myth_render::pipeline::pipeline_key::replace_target;
use myth_render::pipeline::shader_defines::ShaderDefines;
use myth_render::pipeline::shader_gen::decimal_string;

#[test]
fn decimal_text_matches_to_string() {
    for n in [0u32, 7, 10, 24, 100, 4096, 65535, u32::MAX] {
        assert_eq!(decimal_string(n), n.to_string());
    }
}

#[test]
fn replace_target_writes_source_unchanged() {
    let t = replace_target(TextureFormat::Rgba16Float);
    let b = t.blend.unwrap();
    assert_eq!(b.color.src_factor, BlendFactor::One);
    assert_eq!(b.color.dst_factor, BlendFactor::Zero);
    assert_eq!(b.alpha, b.color);
    assert_eq!(t.write_mask, 0xf);
}

#[test]
fn chain_builds_missing_stages_once() {
    let mut f = SsrFeature::new();
    assert_eq!(
        f.pipelines.missing_stages(24),
        vec![ChainStage::Trace(24), ChainStage::Temporal, ChainStage::Filter, ChainStage::Merge]
    );
    f.pipelines.install(ChainStage::Trace(24), RenderPipelineId(0));
    f.pipelines.install(ChainStage::Temporal, RenderPipelineId(1));
    f.pipelines.install(ChainStage::Filter, RenderPipelineId(2));
    f.pipelines.install(ChainStage::Merge, RenderPipelineId(3));
    assert!(f.pipelines.missing_stages(24).is_empty());
    assert_eq!(f.pipelines.missing_stages(48), vec![ChainStage::Trace(48)]);
    assert_eq!(f.pipelines.stage_pipeline(ChainStage::Trace(24)), Some(RenderPipelineId(0)));
    assert_eq!(f.pipelines.stage_pipeline(ChainStage::Trace(48)), None);
    assert_eq!(f.pipelines.stage_pipeline(ChainStage::Merge), Some(RenderPipelineId(3)));
    let g = SsgiFeature::new();
    assert_eq!(g.pipelines.missing_stages(16).len(), 4);
}

#[test]
fn chain_stage_keys() {
    let temporal = stage_pipeline_key(ChainStage::Temporal, SSR_TEXTURE_FORMAT, 5);
    assert_eq!(temporal.color_targets.len(), 2);
    assert_eq!(temporal.shader_hash, 5);
    assert!(temporal.depth_stencil.is_none());
    assert_eq!(temporal.multisample.count, 1);
    let merge = stage_pipeline_key(ChainStage::Merge, TextureFormat::R8Unorm, 5);
    assert_eq!(merge.color_targets, vec![replace_target(HDR_TEXTURE_FORMAT)]);
    let trace = stage_pipeline_key(ChainStage::Trace(8), TextureFormat::R8Unorm, 5);
    assert_eq!(trace.color_targets, vec![replace_target(TextureFormat::R8Unorm)]);
}

#[test]
fn ssr_stage_shaders_and_options() {
    assert_eq!(ssr_stage_shader(ChainStage::Trace(3)), "entry/post_process/ssr_trace");
    assert_eq!(ssr_stage_shader(ChainStage::Filter), "entry/post_process/ssr_spatial_filter");
    let trace = ssr_stage_options(ChainStage::Trace(24), "struct S", "bind", "lights");
    assert_eq!(trace.defines.get("struct_definitions"), Some("struct S".to_string()));
    assert_eq!(trace.code_blocks.get("ssr_max_steps"), Some("24".to_string()));
    assert_eq!(trace.code_blocks.get("binding_code"), Some("bind".to_string()));
    assert_eq!(trace.code_blocks.get("scene_lighting_structs"), Some("lights".to_string()));
    let temporal = ssr_stage_options(ChainStage::Temporal, "struct S", "bind", "lights");
    assert_eq!(temporal.code_blocks.len(), 0);
    let merge = ssr_stage_options(ChainStage::Merge, "struct S", "bind", "lights");
    assert_eq!(merge.code_blocks.len(), 2);
    assert_eq!(merge.code_blocks.get("ssr_max_steps"), None);
}

#[test]
fn ssgi_stage_shaders_and_options() {
    assert_eq!(ssgi_stage_shader(ChainStage::Trace(3)), "entry/features/ssgi/raw");
    assert_eq!(ssgi_stage_shader(ChainStage::Filter), "entry/features/ssgi/atrous_blur");
    let raw = ssgi_stage_options(ChainStage::Trace(16), "struct G", "bind", "lights");
    assert_eq!(raw.code_blocks.get("ssgi_max_steps"), Some("16".to_string()));
    assert_eq!(raw.code_blocks.len(), 3);
    let merge = ssgi_stage_options(ChainStage::Merge, "struct G", "bind", "lights");
    assert_eq!(merge.code_blocks.len(), 0);
    assert_eq!(merge.defines.get("struct_definitions"), Some("struct G".to_string()));
}

#[test]
fn skybox_pipeline_options_and_key() {
    let key = SkyboxPipelineKey {
        variant: SkyboxVariant::Procedural,
        procedural_starbox: ProceduralStarboxKind::Cube,
        procedural_moon_texture: true,
        color_format: TextureFormat::Rgba16Float,
        depth_format: TextureFormat::Depth32Float,
        msaa_samples: 4,
    };
    let o = skybox_shader_options(&key, "struct P", "bind", "lights");
    assert_eq!(o.defines.get("SKYBOX_PROCEDURAL"), Some("1".to_string()));
    assert_eq!(o.defines.get("CELESTIAL_STARBOX_CUBE"), Some("1".to_string()));
    assert_eq!(o.defines.get("USE_MOON_TEXTURE"), Some("1".to_string()));
    assert_eq!(o.defines.get("struct_definitions"), Some("struct P".to_string()));
    assert_eq!(o.code_blocks.get("binding_code"), Some("bind".to_string()));
    let k = skybox_fullscreen_key(&key, 77);
    assert_eq!(k.color_targets, vec![replace_target(TextureFormat::Rgba16Float)]);
    let d = k.depth_stencil.unwrap();
    assert_eq!(d.depth_write_enabled, Some(false));
    assert_eq!(d.depth_compare, Some(CompareFunction::GreaterEqual));
    assert_eq!(d.format, TextureFormat::Depth32Float);
    assert_eq!(k.multisample.count, 4);
    assert_eq!(k.multisample.mask, u64::MAX);
}

#[test]
fn tone_mapping_pipeline_options_and_key() {
    let mut mode = ShaderDefines::new();
    mode.set("TONE_MAPPING_ACES", "1");
    let o = tone_mapping_shader_options(&mode, true, "struct U", "bind", "lights");
    assert_eq!(o.defines.get("TONE_MAPPING_ACES"), Some("1".to_string()));
    assert_eq!(o.defines.get("USE_LUT"), Some("1".to_string()));
    assert_eq!(o.defines.get("USE_BLUE_NOISE"), Some("1".to_string()));
    assert_eq!(o.defines.get("struct_definitions"), Some("struct U".to_string()));
    let plain = tone_mapping_shader_options(&mode, false, "struct U", "bind", "lights");
    assert_eq!(plain.defines.get("USE_LUT"), None);
    let k = tone_mapping_fullscreen_key(TextureFormat::Bgra8UnormSrgb, 3);
    assert_eq!(k.color_targets, vec![replace_target(TextureFormat::Bgra8UnormSrgb)]);
    assert!(k.depth_stencil.is_none());
}
