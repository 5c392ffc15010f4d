use myth_render::format::{TextureFormat, ViewDimension};
use myth_render::graph::node::TextureNodeId;
use myth_render::graph::passes::skybox::{
    dependency_reads, layout_for_variant, resolve_procedural_moon_view, resolve_texture_view,
    BackgroundKind, BackgroundMapping, ProceduralStarboxKind, ResolvedTextureView, SkyboxBinding,
    SkyboxFeature, SkyboxInputs, SkyboxLayout, SkyboxPipelineKey, SkyboxPlan, SkyboxVariant,
};
use myth_render::pipeline::cache::RenderPipelineId;
use myth_render::pipeline::shader_defines::ShaderDefines;

fn inputs(background: BackgroundKind) -> SkyboxInputs {
    SkyboxInputs {
        background,
        texture_pending: false,
        starbox_pending: false,
        moon_pending: false,
        texture: None,
        starbox: None,
        moon: None,
        white_texture_id: 1,
        procedural_resources_ready: true,
        color_format: TextureFormat::Rgba16Float,
        depth_format: TextureFormat::Depth32Float,
        msaa_samples: 1,
    }
}

fn view(d: ViewDimension, key: u64) -> Option<ResolvedTextureView> {
    Some(ResolvedTextureView { view_dimension: d, resource_key: key })
}

#[test]
fn variants_from_backgrounds() {
    assert_eq!(SkyboxVariant::from_background(BackgroundKind::Color), None);
    assert_eq!(SkyboxVariant::from_background(BackgroundKind::Gradient), Some(SkyboxVariant::Gradient));
    assert_eq!(
        SkyboxVariant::from_background(BackgroundKind::Texture(BackgroundMapping::Planar)),
        Some(SkyboxVariant::Planar)
    );
    assert_eq!(SkyboxVariant::from_background(BackgroundKind::Procedural), Some(SkyboxVariant::Procedural));
    assert_eq!(SkyboxVariant::Equirectangular.shader_define_key(), "SKYBOX_EQUIRECT");
    assert!(!SkyboxVariant::Gradient.needs_texture());
    assert!(SkyboxVariant::Cube.needs_texture());
}

#[test]
fn variant_defines() {
    let mut g = ShaderDefines::new();
    SkyboxVariant::Gradient.apply_shader_defines(&mut g, ProceduralStarboxKind::Cube, true);
    assert_eq!(g.get("SKYBOX_GRADIENT"), Some("1".to_string()));
    assert_eq!(g.get("USE_BLUE_NOISE"), Some("1".to_string()));
    assert_eq!(g.get("CELESTIAL_STARBOX_CUBE"), None);
    let mut p = ShaderDefines::new();
    SkyboxVariant::Procedural.apply_shader_defines(&mut p, ProceduralStarboxKind::Equirectangular, true);
    assert_eq!(p.get("CELESTIAL_STARBOX_EQUIRECT"), Some("1".to_string()));
    assert_eq!(p.get("USE_MOON_TEXTURE"), Some("1".to_string()));
    assert_eq!(p.get("USE_BLUE_NOISE"), None);
}

#[test]
fn layouts_and_view_acceptance() {
    assert_eq!(layout_for_variant(SkyboxVariant::Planar, ProceduralStarboxKind::Cube), SkyboxLayout::Texture2d);
    assert_eq!(
        layout_for_variant(SkyboxVariant::Procedural, ProceduralStarboxKind::Cube),
        SkyboxLayout::ProceduralCube
    );
    assert_eq!(resolve_texture_view(view(ViewDimension::D2, 3), BackgroundMapping::Cube), None);
    assert_eq!(resolve_texture_view(view(ViewDimension::Cube, 3), BackgroundMapping::Cube), view(ViewDimension::Cube, 3));
    assert_eq!(resolve_texture_view(view(ViewDimension::D2, 3), BackgroundMapping::Planar), view(ViewDimension::D2, 3));
    assert_eq!(resolve_procedural_moon_view(view(ViewDimension::D2, 8), 1), (8, true));
    assert_eq!(resolve_procedural_moon_view(view(ViewDimension::Cube, 8), 1), (1, false));
    assert_eq!(resolve_procedural_moon_view(None, 1), (1, false));
}

#[test]
fn color_background_disables_the_skybox() {
    let mut f = SkyboxFeature::new();
    assert_eq!(f.extract_and_prepare(&inputs(BackgroundKind::Color)), SkyboxPlan::Disabled);
    assert!(!f.draws());
}

#[test]
fn gradient_draws_with_blue_noise_binding() {
    let mut f = SkyboxFeature::new();
    let plan = f.extract_and_prepare(&inputs(BackgroundKind::Gradient));
    let key = SkyboxPipelineKey {
        variant: SkyboxVariant::Gradient,
        procedural_starbox: ProceduralStarboxKind::NoStarbox,
        procedural_moon_texture: false,
        color_format: TextureFormat::Rgba16Float,
        depth_format: TextureFormat::Depth32Float,
        msaa_samples: 1,
    };
    assert_eq!(plan, SkyboxPlan::Draw { layout: SkyboxLayout::Gradient, binding: SkyboxBinding::Gradient, key });
    assert_eq!(f.cached_pipeline(&key), None);
    f.set_pipeline(key, RenderPipelineId(9));
    assert_eq!(f.cached_pipeline(&key), Some(RenderPipelineId(9)));
    f.set_pipeline(key, RenderPipelineId(10));
    assert_eq!(f.cached_pipeline(&key), Some(RenderPipelineId(9)));
    assert!(f.draws());
}

#[test]
fn texture_background_needs_a_matching_view() {
    let mut f = SkyboxFeature::new();
    let mut i = inputs(BackgroundKind::Texture(BackgroundMapping::Cube));
    i.texture = view(ViewDimension::D2, 4);
    assert_eq!(f.extract_and_prepare(&i), SkyboxPlan::Disabled);
    i.texture = view(ViewDimension::Cube, 4);
    match f.extract_and_prepare(&i) {
        SkyboxPlan::Draw { layout, binding, .. } => {
            assert_eq!(layout, SkyboxLayout::Cube);
            assert_eq!(binding, SkyboxBinding::Texture { resource_key: 4 });
        }
        other => panic!("unexpected {:?}", other),
    }
}

#[test]
fn loading_texture_keeps_previous_frame() {
    let mut f = SkyboxFeature::new();
    let mut i = inputs(BackgroundKind::Texture(BackgroundMapping::Equirectangular));
    i.texture_pending = true;
    i.texture = view(ViewDimension::D2, 4);
    assert!(matches!(f.extract_and_prepare(&i), SkyboxPlan::Draw { .. }));
    f.set_pipeline(
        SkyboxPipelineKey {
            variant: SkyboxVariant::Equirectangular,
            procedural_starbox: ProceduralStarboxKind::NoStarbox,
            procedural_moon_texture: false,
            color_format: TextureFormat::Rgba16Float,
            depth_format: TextureFormat::Depth32Float,
            msaa_samples: 1,
        },
        RenderPipelineId(2),
    );
    assert_eq!(f.extract_and_prepare(&i), SkyboxPlan::KeepPrevious);
    assert!(f.draws());
}

#[test]
fn procedural_sky_binds_luts_moon_and_starbox() {
    let mut f = SkyboxFeature::new();
    let mut i = inputs(BackgroundKind::Procedural);
    i.starbox = view(ViewDimension::Cube, 5);
    i.moon = view(ViewDimension::D2, 6);
    match f.extract_and_prepare(&i) {
        SkyboxPlan::Draw { layout, binding, key } => {
            assert_eq!(layout, SkyboxLayout::ProceduralCube);
            assert_eq!(binding, SkyboxBinding::Procedural { moon_resource_key: 6, starbox_resource_key: Some(5) });
            assert_eq!(key.procedural_starbox, ProceduralStarboxKind::Cube);
            assert!(key.procedural_moon_texture);
        }
        other => panic!("unexpected {:?}", other),
    }
    i.procedural_resources_ready = false;
    assert_eq!(f.extract_and_prepare(&i), SkyboxPlan::Disabled);
}

#[test]
fn skybox_reads_present_dependencies() {
    assert_eq!(dependency_reads([Some(TextureNodeId(1)), None]), vec![TextureNodeId(1)]);
    assert_eq!(dependency_reads([Some(TextureNodeId(1)), Some(TextureNodeId(2))]), vec![TextureNodeId(1), TextureNodeId(2)]);
    assert!(dependency_reads([None, None]).is_empty());
}

#[test]
fn variant_defines_on_an_empty_set_are_exactly_listed() {
    let mut p = ShaderDefines::new();
    SkyboxVariant::Procedural.apply_shader_defines(&mut p, ProceduralStarboxKind::Cube, true);
    let entries: Vec<(String, String)> = p.entries().clone();
    assert_eq!(
        entries,
        vec![
            ("SKYBOX_PROCEDURAL".to_string(), "1".to_string()),
            ("CELESTIAL_STARBOX_CUBE".to_string(), "1".to_string()),
            ("USE_MOON_TEXTURE".to_string(), "1".to_string()),
        ]
    );
    let mut c = ShaderDefines::new();
    SkyboxVariant::Cube.apply_shader_defines(&mut c, ProceduralStarboxKind::Cube, true);
    assert_eq!(c.entries().clone(), vec![("SKYBOX_CUBE".to_string(), "1".to_string())]);
}
