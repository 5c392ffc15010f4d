use myth_render::graph::node::BufferNodeId;
use myth_render::graph::passes::clustered_lighting::{
    array_buffer_size, cluster_dispatch_size, cluster_grid, disabled_outputs, saturating_mul_u32,
    tracked_buffer_recreate_size, ClusteredLightingConfig, ClusteredLightingFeature,
    CLUSTERED_LIGHTING_PARAMS_SIZE,
};
use myth_render::graph::passes::light_merge::{
    light_capacity_from_desc, merge_dispatch_size, merged_light_budget, LightMergeFeature,
};
use myth_render::pipeline::cache::ComputePipelineId;

#[test]
fn default_cluster_config() {
    let c = ClusteredLightingConfig::default();
    assert_eq!((c.tile_size_x, c.tile_size_y, c.slices_z, c.max_lights_per_cluster), (120, 120, 24, 128));
}

#[test]
fn cluster_grid_for_1080p() {
    let c = ClusteredLightingConfig::default();
    let (p, clamped) = cluster_grid(&c, 1920, 1080, 1 << 30, true, 40);
    assert_eq!((p.clusters_x, p.clusters_y, p.clusters_z), (16, 9, 24));
    assert_eq!(p.total_clusters, 16 * 9 * 24);
    assert_eq!(p.max_lights_per_cluster, 128);
    assert_eq!(p.light_index_capacity, 16 * 9 * 24 * 128);
    assert_eq!(p.flags, 1);
    assert_eq!(p.active_light_count, 40);
    assert!(!clamped);
}

#[test]
fn cluster_budget_clamped_by_storage_limit() {
    let c = ClusteredLightingConfig::default();
    let total: u64 = 16 * 9 * 24;
    let (p, clamped) = cluster_grid(&c, 1920, 1080, total * 4 * 10, false, 0);
    assert_eq!(p.max_lights_per_cluster, 10);
    assert_eq!(p.light_index_capacity as u64, total * 10);
    assert_eq!(p.flags, 0);
    assert!(clamped);
    let (q, _) = cluster_grid(&c, 1920, 1080, 4, false, 0);
    assert_eq!(q.max_lights_per_cluster, 1);
    assert_eq!(q.light_index_capacity as u64, total);
}

#[test]
fn cluster_grid_degenerate_config() {
    let c = ClusteredLightingConfig { tile_size_x: 0, tile_size_y: 0, slices_z: 0, max_lights_per_cluster: 0 };
    let (p, clamped) = cluster_grid(&c, 3, 2, 1 << 20, true, 1);
    assert_eq!((p.tile_size_x, p.tile_size_y), (1, 1));
    assert_eq!((p.clusters_x, p.clusters_y, p.clusters_z), (3, 2, 1));
    assert_eq!(p.total_clusters, 6);
    assert_eq!(p.max_lights_per_cluster, 1);
    assert!(!clamped);
}

#[test]
fn cluster_total_saturates() {
    assert_eq!(saturating_mul_u32(u32::MAX, 2), u32::MAX);
    assert_eq!(saturating_mul_u32(70000, 70000), u32::MAX);
    assert_eq!(saturating_mul_u32(3, 5), 15);
    let c = ClusteredLightingConfig { tile_size_x: 1, tile_size_y: 1, slices_z: u32::MAX, max_lights_per_cluster: 1 };
    let (p, _) = cluster_grid(&c, 2, 2, u64::MAX, true, 0);
    assert_eq!(p.total_clusters, u32::MAX);
}

#[test]
fn cluster_buffers_and_dispatch() {
    assert_eq!(array_buffer_size(100, 32), 3200);
    assert_eq!(cluster_dispatch_size(3456), 54);
    assert_eq!(cluster_dispatch_size(65), 2);
    assert_eq!(tracked_buffer_recreate_size(None, 64), Some(64));
    assert_eq!(tracked_buffer_recreate_size(Some(64), 64), None);
    assert_eq!(tracked_buffer_recreate_size(Some(32), 0), Some(1));
    let o = disabled_outputs(BufferNodeId(4));
    assert_eq!(o.cluster_records, None);
    assert_eq!(o.light_indices, None);
}

#[test]
fn clustered_feature_prepares_grid_and_buffer_once() {
    let mut f = ClusteredLightingFeature::new();
    assert!(f.needs_pipelines());
    let (create, _) = f.extract_and_prepare(1280, 720, 1 << 27, true, 3);
    assert_eq!(create, Some(CLUSTERED_LIGHTING_PARAMS_SIZE));
    let (again, _) = f.extract_and_prepare(1280, 720, 1 << 27, true, 3);
    assert_eq!(again, None);
    assert_eq!(f.frame_params().clusters_x, 11);
    assert_eq!(f.light_index_bytes(), f.frame_params().light_index_capacity as u64 * 4);
    assert_eq!(f.cluster_aabb_bytes(32), f.frame_params().total_clusters as u64 * 32);
    assert_eq!(f.cluster_record_bytes(8), f.frame_params().total_clusters as u64 * 8);
    f.install_pipelines(ComputePipelineId(1), ComputePipelineId(2));
    assert!(!f.needs_pipelines());
}

#[test]
fn light_capacity_clamps() {
    assert_eq!(light_capacity_from_desc(0, 64), 1);
    assert_eq!(light_capacity_from_desc(640, 64), 10);
    assert_eq!(light_capacity_from_desc(u64::MAX, 1), u32::MAX);
}

#[test]
fn merged_light_budget_saturates() {
    let b = merged_light_budget(10, 640, 64);
    assert_eq!(b.merged_capacity, 20);
    assert_eq!(b.storage_size, 1280);
    let s = merged_light_budget(u32::MAX, 640, 64);
    assert_eq!(s.merged_capacity, u32::MAX);
    let t = merged_light_budget(u32::MAX, 640, u64::MAX);
    assert_eq!(t.storage_size, u64::MAX);
    assert_eq!(merge_dispatch_size(20), 1);
    assert_eq!(merge_dispatch_size(129), 3);
    let mut f = LightMergeFeature::new();
    assert!(f.needs_pipeline());
    f.install_pipeline(ComputePipelineId(0));
    assert!(!f.needs_pipeline());
}
