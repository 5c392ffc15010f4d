use myth_render::format::ViewDimension;
use myth_render::graph::node::{BufferNodeId, TextureNodeId};
use myth_render::graph::passes::atmosphere::{
    fallback_moon_texture, lut_dispatch_size, physics_hash, resolve_moon_texture, resolve_starbox,
    sky_to_cube_pipeline_keys, AtmosphereFeature, AtmosphereGraphOutput, AtmospherePhysics,
    AtmospherePipelines, AtmosphereSkyToCubePipelineKey, AtmosphereStarboxKind,
};
use myth_render::graph::passes::equirect_to_cube::{
    cube_face_dispatch, layout_for_source, ConvertAction, CubeSourceType, EnvironmentTarget,
    EquirectToCubeFeature, SourceLayout,
};
use myth_render::graph::passes::ibl_compute::{
    mip_params, mip_size, pipeline_variant, roughness_denominator, sample_count, IblAction,
    IblComputeFeature, IblPipelineVariant, IblTarget,
};
use myth_render::graph::passes::scene_cache::{SceneStateCache, SCENE_CACHE_TTL};
use myth_render::pipeline::cache::ComputePipelineId;
use myth_render::pipeline::shader_defines::ShaderDefines;

fn physics(seed: u32) -> AtmospherePhysics {
    AtmospherePhysics {
        rayleigh_scattering: [seed, seed + 1, seed + 2],
        rayleigh_scale_height: 8,
        mie_scattering: 9,
        mie_absorption: 10,
        mie_scale_height: 11,
        mie_anisotropy: 12,
        ozone_absorption: [13, 14, 15],
        planet_radius: 16,
        atmosphere_radius: 17,
    }
}

#[test]
fn scene_cache_evicts_exactly_the_stale_scenes() {
    let mut cache: SceneStateCache<u32> = SceneStateCache::new();
    cache.insert(1, 10, 100);
    cache.insert(2, 200, 200);
    cache.insert(3, 10 + SCENE_CACHE_TTL, 300);
    cache.prune(10 + SCENE_CACHE_TTL + 1);
    assert!(!cache.contains(1));
    assert_eq!(cache.get(2), Some(&200));
    assert_eq!(cache.get(3), Some(&300));
    assert_eq!(cache.len(), 2);
}

#[test]
fn scene_cache_touch_and_replace() {
    let mut cache: SceneStateCache<u32> = SceneStateCache::new();
    cache.insert(7, 1, 70);
    cache.touch(7, 500);
    assert_eq!(cache.last_used_frame(7), Some(500));
    cache.set_state(7, 71);
    assert_eq!(cache.get(7), Some(&71));
    assert_eq!(cache.last_used_frame(7), Some(500));
    cache.insert(7, 600, 72);
    assert_eq!(cache.len(), 1);
    cache.remove(7);
    assert_eq!(cache.get(7), None);
    cache.touch(8, 1);
    assert!(!cache.contains(8));
}

#[test]
fn starbox_kind_from_view_dimension() {
    assert_eq!(
        AtmosphereStarboxKind::from_view_dimension(ViewDimension::D2),
        Some(AtmosphereStarboxKind::Equirectangular)
    );
    assert_eq!(AtmosphereStarboxKind::from_view_dimension(ViewDimension::Cube), Some(AtmosphereStarboxKind::Cube));
    assert_eq!(AtmosphereStarboxKind::from_view_dimension(ViewDimension::D3), None);
    assert_eq!(resolve_starbox(5, ViewDimension::D2Array), None);
    assert_eq!(resolve_moon_texture(5, ViewDimension::Cube), None);
    assert!(resolve_moon_texture(5, ViewDimension::D2).unwrap().enabled);
}

#[test]
fn sky_to_cube_defines() {
    let mut d = ShaderDefines::new();
    AtmosphereSkyToCubePipelineKey { starbox_kind: AtmosphereStarboxKind::Cube, moon_texture: true }
        .apply_shader_defines(&mut d);
    assert_eq!(d.get("CELESTIAL_STARBOX_CUBE"), Some("1".to_string()));
    assert_eq!(d.get("USE_MOON_TEXTURE"), Some("1".to_string()));
    assert_eq!(d.get("CELESTIAL_STARBOX_EQUIRECT"), None);
    let mut e = ShaderDefines::new();
    AtmosphereStarboxKind::NoStarbox.apply_shader_defines(&mut e);
    assert_eq!(e.len(), 0);
}

#[test]
fn sky_to_cube_keys_fill_every_slot_once() {
    let keys = sky_to_cube_pipeline_keys();
    assert_eq!(keys.len(), 6);
    for (i, k) in keys.iter().enumerate() {
        assert_eq!(k.slot(), i);
    }
    assert_eq!(keys[0].starbox_kind, AtmosphereStarboxKind::NoStarbox);
    assert!(keys[5].moon_texture);
}

#[test]
fn physics_hash_tracks_the_parameters() {
    assert_eq!(physics_hash(&physics(1)), physics_hash(&physics(1)));
    assert_ne!(physics_hash(&physics(1)), physics_hash(&physics(2)));
}

#[test]
fn atmosphere_rebakes_only_when_physics_change() {
    let mut f = AtmosphereFeature::new();
    let white = fallback_moon_texture(99);
    f.extract_and_prepare(4, 1, &physics(1), None, None, white);
    let s = f.scene_state(4).unwrap();
    assert!(s.physics_dirty);
    assert_eq!(s.moon_texture, white);
    assert!(f.plan_graph(4, false).rebuild_physics);
    f.finish_physics_bake(4);
    f.extract_and_prepare(4, 2, &physics(1), None, None, white);
    assert!(!f.plan_graph(4, false).rebuild_physics);
    f.extract_and_prepare(4, 3, &physics(2), None, None, white);
    assert!(f.plan_graph(4, true).rebuild_physics);
}

#[test]
fn atmosphere_uploads_each_version_once() {
    let mut f = AtmosphereFeature::new();
    assert!(!f.update_if_needed(1, 5));
    f.extract_and_prepare(1, 0, &physics(3), None, None, fallback_moon_texture(1));
    assert!(f.update_if_needed(1, 5));
    assert!(!f.update_if_needed(1, 5));
    assert!(f.update_if_needed(1, 6));
}

#[test]
fn atmosphere_plan_follows_starbox_and_moon() {
    let mut f = AtmosphereFeature::new();
    let starbox = resolve_starbox(11, ViewDimension::Cube);
    let moon = resolve_moon_texture(12, ViewDimension::D2);
    f.extract_and_prepare(2, 0, &physics(4), starbox, moon, fallback_moon_texture(1));
    let plan = f.plan_graph(2, true);
    assert!(plan.bake_sky_to_cube);
    assert_eq!(
        plan.sky_to_cube_key,
        AtmosphereSkyToCubePipelineKey { starbox_kind: AtmosphereStarboxKind::Cube, moon_texture: true }
    );
    assert!(f.needs_pipelines());
    let ids: Vec<ComputePipelineId> = (0..6).map(ComputePipelineId).collect();
    f.install_pipelines(AtmospherePipelines {
        transmittance: ComputePipelineId(10),
        multi_scatter: ComputePipelineId(11),
        sky_view: ComputePipelineId(12),
        sky_to_cube: ids,
    });
    assert_eq!(f.sky_to_cube_pipeline(plan.sky_to_cube_key), Some(ComputePipelineId(5)));
}

#[test]
fn atmosphere_scene_state_expires() {
    let mut f = AtmosphereFeature::new();
    f.extract_and_prepare(1, 0, &physics(1), None, None, fallback_moon_texture(1));
    f.extract_and_prepare(2, 121, &physics(1), None, None, fallback_moon_texture(1));
    assert!(f.scene_state(1).is_none());
    assert!(f.scene_state(2).is_some());
}

#[test]
fn atmosphere_lut_dispatch_and_skybox_dependencies() {
    assert_eq!(lut_dispatch_size(256, 64), (32, 8));
    assert_eq!(lut_dispatch_size(192, 108), (24, 14));
    let out = AtmosphereGraphOutput {
        sky_view: TextureNodeId(3),
        transmittance: TextureNodeId(4),
        bake_params: BufferNodeId(5),
    };
    assert_eq!(out.skybox_dependencies(), [Some(TextureNodeId(3)), Some(TextureNodeId(4))]);
}

#[test]
fn equirect_conversion_rebuilds_on_change() {
    let mut f = EquirectToCubeFeature::new();
    let env = Some(EnvironmentTarget { source_type: CubeSourceType::Equirectangular, dest_view_id: 7 });
    assert_eq!(f.extract_and_prepare(1, 0, env, true, Some(3)), ConvertAction::Rebuilt);
    assert_eq!(f.extract_and_prepare(1, 1, env, true, Some(3)), ConvertAction::Reused);
    assert_eq!(f.extract_and_prepare(1, 2, env, true, Some(4)), ConvertAction::Rebuilt);
    assert_eq!(f.extract_and_prepare(1, 3, env, true, None), ConvertAction::Waiting);
    assert_eq!(f.extract_and_prepare(1, 4, env, false, Some(4)), ConvertAction::Dropped);
    assert_eq!(f.extract_and_prepare(1, 5, None, true, Some(4)), ConvertAction::Dropped);
    let proc_env = Some(EnvironmentTarget { source_type: CubeSourceType::Procedural, dest_view_id: 7 });
    assert_eq!(f.extract_and_prepare(1, 6, proc_env, true, Some(4)), ConvertAction::Dropped);
}

#[test]
fn equirect_layouts_pipelines_and_dispatch() {
    assert_eq!(layout_for_source(CubeSourceType::Cubemap), Some(SourceLayout::Cubemap));
    assert_eq!(layout_for_source(CubeSourceType::Procedural), None);
    assert_eq!(cube_face_dispatch(512), (64, 64, 6));
    assert_eq!(cube_face_dispatch(20), (3, 3, 6));
    let mut f = EquirectToCubeFeature::new();
    assert!(f.needs_pipelines());
    f.install_pipelines(ComputePipelineId(1), ComputePipelineId(2));
    assert!(!f.needs_pipelines());
    let env = Some(EnvironmentTarget { source_type: CubeSourceType::Cubemap, dest_view_id: 1 });
    f.extract_and_prepare(9, 0, env, true, Some(2));
    assert_eq!(
        f.plan_graph(9, CubeSourceType::Cubemap, TextureNodeId(4), true),
        Some((Some(ComputePipelineId(2)), TextureNodeId(4)))
    );
    assert_eq!(f.plan_graph(9, CubeSourceType::Cubemap, TextureNodeId(4), false), None);
}

#[test]
fn ibl_variant_and_samples() {
    assert_eq!(pipeline_variant(CubeSourceType::Procedural), IblPipelineVariant::Dynamic);
    assert_eq!(pipeline_variant(CubeSourceType::Cubemap), IblPipelineVariant::Static);
    assert_eq!(sample_count(IblPipelineVariant::Static), 4096);
    assert_eq!(sample_count(IblPipelineVariant::Dynamic), 64);
}

#[test]
fn ibl_mip_parameters() {
    assert_eq!(mip_size(256, 3), 32);
    assert_eq!(mip_size(256, 10), 1);
    assert_eq!(roughness_denominator(0), 1);
    assert_eq!(roughness_denominator(1), 1);
    assert_eq!(roughness_denominator(9), 8);
    let p = mip_params(128, 8);
    assert_eq!(p.len(), 8);
    assert_eq!((p[0].mip, p[0].roughness_denominator, p[0].mip_size), (0, 7, 128));
    assert_eq!((p[7].mip, p[7].mip_size), (7, 1));
}

fn ibl_target(views: Vec<u64>, size: u32) -> Option<IblTarget> {
    Some(IblTarget {
        source_type: CubeSourceType::Equirectangular,
        base_cube_view_id: 1,
        pmrem_view_ids: views,
        pmrem_size: size,
        mip_levels: 3,
    })
}

#[test]
fn ibl_rebuilds_when_views_or_size_change() {
    let mut f = IblComputeFeature::new();
    match f.extract_and_prepare(1, 0, ibl_target(vec![1, 2, 3], 64)) {
        IblAction::Rebuilt(p) => assert_eq!(p.len(), 3),
        other => panic!("unexpected {:?}", other),
    }
    assert_eq!(f.extract_and_prepare(1, 1, ibl_target(vec![1, 2, 3], 64)), IblAction::Reused);
    assert!(matches!(f.extract_and_prepare(1, 2, ibl_target(vec![1, 2, 4], 64)), IblAction::Rebuilt(_)));
    assert!(matches!(f.extract_and_prepare(1, 3, ibl_target(vec![1, 2, 4], 32)), IblAction::Rebuilt(_)));
    assert_eq!(f.extract_and_prepare(1, 4, None), IblAction::Dropped);
}

#[test]
fn ibl_graph_uses_the_scene_variant() {
    let mut f = IblComputeFeature::new();
    assert!(f.needs_pipeline(IblPipelineVariant::Static));
    f.install_pipeline(IblPipelineVariant::Static, ComputePipelineId(3));
    assert!(!f.needs_pipeline(IblPipelineVariant::Static));
    assert!(f.needs_pipeline(IblPipelineVariant::Dynamic));
    f.extract_and_prepare(5, 0, ibl_target(vec![9], 16));
    let (pipeline, out) = f.plan_graph(5, TextureNodeId(8), true);
    assert_eq!(pipeline, Some(ComputePipelineId(3)));
    assert_eq!(out.updated_pmrem, Some(TextureNodeId(8)));
    let (none, out2) = f.plan_graph(5, TextureNodeId(8), false);
    assert_eq!(none, None);
    assert_eq!(out2.updated_pmrem, None);
}
