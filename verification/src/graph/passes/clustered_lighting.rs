//! Clustered forward lighting: the cluster grid over the screen and the
//! light-index budget that fits the device's storage-buffer limit.
use vstd::prelude::*;

use crate::graph::node::BufferNodeId;
use crate::graph::passes::hiz_build::{div_ceil_spec, u32_div_ceil};
use crate::pipeline::cache::ComputePipelineId;

verus! {

/// Default cluster depth slices for forward clustered lighting.
pub const DEFAULT_CLUSTER_Z_SLICES: u32 = 24;

/// Approximate screen-space tile size in pixels.
pub const DEFAULT_CLUSTER_TILE_SIZE: u32 = 120;

/// Hard cap on the lights of one cluster.
pub const DEFAULT_MAX_LIGHTS_PER_CLUSTER: u32 = 128;

/// Bit flag stored in the third budget word of the cluster parameters.
pub const CLUSTERED_LIGHTING_FLAG_ENABLED: u32 = 1;

/// Threads per workgroup of the cluster build and cull dispatches.
pub const CLUSTER_WORKGROUP_SIZE: u32 = 64;

/// Size of the cluster parameter uniform: three `uvec4` and one `vec4`.
pub const CLUSTERED_LIGHTING_PARAMS_SIZE: u64 = 64;

/// Shape of the cluster grid.
#[derive(Debug, Clone, Copy, PartialEq, Eq, Structural)]
pub struct ClusteredLightingConfig {
    pub tile_size_x: u32,
    pub tile_size_y: u32,
    pub slices_z: u32,
    pub max_lights_per_cluster: u32,
}

impl Default for ClusteredLightingConfig {
    fn default() -> (r: Self)
        ensures
            r == (ClusteredLightingConfig {
                tile_size_x: DEFAULT_CLUSTER_TILE_SIZE,
                tile_size_y: DEFAULT_CLUSTER_TILE_SIZE,
                slices_z: DEFAULT_CLUSTER_Z_SLICES,
                max_lights_per_cluster: DEFAULT_MAX_LIGHTS_PER_CLUSTER,
            }),
    {
        ClusteredLightingConfig {
            tile_size_x: DEFAULT_CLUSTER_TILE_SIZE,
            tile_size_y: DEFAULT_CLUSTER_TILE_SIZE,
            slices_z: DEFAULT_CLUSTER_Z_SLICES,
            max_lights_per_cluster: DEFAULT_MAX_LIGHTS_PER_CLUSTER,
        }
    }
}

/// Buffers the cluster chain hands to the forward passes; the cluster lists
/// exist only while clustered shading is enabled.
#[derive(Debug, Clone, Copy, PartialEq, Eq, Structural)]
pub struct ClusteredLightingOutputs {
    pub params_buffer: BufferNodeId,
    pub cluster_records: Option<BufferNodeId>,
    pub light_indices: Option<BufferNodeId>,
}

/// The integer words of the cluster parameters (the depth-slicing floats are
/// computed beside them).
#[derive(Debug, Clone, Copy, PartialEq, Eq, Structural)]
pub struct ClusterGridParams {
    pub width: u32,
    pub height: u32,
    pub clusters_x: u32,
    pub clusters_y: u32,
    pub clusters_z: u32,
    pub total_clusters: u32,
    pub tile_size_x: u32,
    pub tile_size_y: u32,
    pub max_lights_per_cluster: u32,
    pub light_index_capacity: u32,
    pub flags: u32,
    pub active_light_count: u32,
}

pub open spec fn max_nat(a: nat, b: nat) -> nat {
    if a >= b { a } else { b }
}

pub open spec fn min_nat(a: nat, b: nat) -> nat {
    if a <= b { a } else { b }
}

/// `a * b` saturated at `u32::MAX`.
pub open spec fn sat_mul_u32(a: nat, b: nat) -> nat {
    min_nat(a * b, u32::MAX as nat)
}

/// `a * b`, saturating at `u32::MAX`.
pub fn saturating_mul_u32(a: u32, b: u32) -> (r: u32)
    ensures
        r == sat_mul_u32(a as nat, b as nat),
{
    assert((a as u64) * (b as u64) <= u64::MAX) by (nonlinear_arith)
        requires
            a <= u32::MAX,
            b <= u32::MAX,
    ;
    let p: u64 = (a as u64) * (b as u64);
    if p > u32::MAX as u64 {
        u32::MAX
    } else {
        p as u32
    }
}

/// The cluster grid for a `width` x `height` viewport (each at least one
/// pixel), a device whose storage bindings hold at most `max_storage_bytes`,
/// `active_light_count` lights and the enabled flag.
///
/// The grid has one cluster per tile and depth slice (tile sizes and slice
/// count at least 1), the total saturating at `u32::MAX` and at least 1.
/// The light-index list asks for `max_lights_per_cluster` (at least 1) per
/// cluster, clamped to what fits in the storage limit but never below one
/// per cluster; the per-cluster cap is then what that list allows, at least 1.
pub open spec fn spec_cluster_grid(
    config: ClusteredLightingConfig,
    width: u32,
    height: u32,
    max_storage_bytes: u64,
    enabled: bool,
    active_light_count: u32,
) -> ClusterGridParams {
    let tile_x = max_nat(config.tile_size_x as nat, 1);
    let tile_y = max_nat(config.tile_size_y as nat, 1);
    let cx = div_ceil_spec(width as nat, tile_x);
    let cy = div_ceil_spec(height as nat, tile_y);
    let cz = max_nat(config.slices_z as nat, 1);
    let total = max_nat(sat_mul_u32(sat_mul_u32(cx, cy), cz), 1);
    let by_limit = max_nat(max_storage_bytes as nat / 4, total);
    let requested = total * max_nat(config.max_lights_per_cluster as nat, 1);
    let effective = min_nat(requested, by_limit);
    ClusterGridParams {
        width,
        height,
        clusters_x: cx as u32,
        clusters_y: cy as u32,
        clusters_z: cz as u32,
        total_clusters: total as u32,
        tile_size_x: tile_x as u32,
        tile_size_y: tile_y as u32,
        max_lights_per_cluster: max_nat(effective / total, 1) as u32,
        light_index_capacity: max_nat(effective, 1) as u64 as u32,
        flags: if enabled { CLUSTERED_LIGHTING_FLAG_ENABLED } else { 0 },
        active_light_count,
    }
}

/// Computes `spec_cluster_grid`; also says whether the storage limit lowered
/// the per-cluster cap below the configured one.
pub fn cluster_grid(
    config: &ClusteredLightingConfig,
    width: u32,
    height: u32,
    max_storage_bytes: u64,
    enabled: bool,
    active_light_count: u32,
) -> (r: (ClusterGridParams, bool))
    ensures
        r.0 == spec_cluster_grid(*config, width, height, max_storage_bytes, enabled, active_light_count),
        r.1 == (r.0.max_lights_per_cluster < config.max_lights_per_cluster),
        r.0.total_clusters >= 1,
        1 <= r.0.max_lights_per_cluster <= (if config.max_lights_per_cluster >= 1 {
            config.max_lights_per_cluster
        } else {
            1
        }),
{
    let tile_x: u32 = if config.tile_size_x >= 1 { config.tile_size_x } else { 1 };
    let tile_y: u32 = if config.tile_size_y >= 1 { config.tile_size_y } else { 1 };
    let cx = u32_div_ceil(width, tile_x);
    let cy = u32_div_ceil(height, tile_y);
    let cz: u32 = if config.slices_z >= 1 { config.slices_z } else { 1 };
    let t0 = saturating_mul_u32(saturating_mul_u32(cx, cy), cz);
    let total: u32 = if t0 >= 1 { t0 } else { 1 };
    let quarter = max_storage_bytes / 4;
    let by_limit: u64 = if quarter >= total as u64 { quarter } else { total as u64 };
    let per_cluster: u32 = if config.max_lights_per_cluster >= 1 { config.max_lights_per_cluster } else { 1 };
    assert((total as u64) * (per_cluster as u64) <= u64::MAX) by (nonlinear_arith)
        requires
            total <= u32::MAX,
            per_cluster <= u32::MAX,
    ;
    let requested: u64 = (total as u64) * (per_cluster as u64);
    let effective: u64 = if requested <= by_limit { requested } else { by_limit };
    let q = effective / (total as u64);
    assert(q <= per_cluster) by (nonlinear_arith)
        requires
            q == effective / (total as u64),
            effective <= requested,
            requested == (total as u64) * (per_cluster as u64),
            total >= 1,
    ;
    let max_lights: u32 = if q >= 1 { q as u32 } else { 1 };
    let indices_wide: u64 = if effective >= 1 { effective } else { 1 };
    let light_index_capacity = indices_wide as u32;
    let params = ClusterGridParams {
        width,
        height,
        clusters_x: cx,
        clusters_y: cy,
        clusters_z: cz,
        total_clusters: total,
        tile_size_x: tile_x,
        tile_size_y: tile_y,
        max_lights_per_cluster: max_lights,
        light_index_capacity,
        flags: if enabled { CLUSTERED_LIGHTING_FLAG_ENABLED } else { 0 },
        active_light_count,
    };
    (params, max_lights < config.max_lights_per_cluster)
}

/// Bytes of a buffer of `count` elements of `element_size` bytes.
pub fn array_buffer_size(count: u32, element_size: u64) -> (r: u64)
    requires
        element_size <= u32::MAX,
    ensures
        r == count * element_size,
{
    assert((count as u64) * element_size <= u64::MAX) by (nonlinear_arith)
        requires
            count <= u32::MAX,
            element_size <= u32::MAX,
    ;
    (count as u64) * element_size
}

/// Workgroups of a one-thread-per-cluster dispatch.
pub fn cluster_dispatch_size(total_clusters: u32) -> (r: u32)
    ensures
        r == div_ceil_spec(total_clusters as nat, CLUSTER_WORKGROUP_SIZE as nat),
{
    u32_div_ceil(total_clusters, CLUSTER_WORKGROUP_SIZE)
}

/// The size to (re)create a persistent buffer with, if the one held does not
/// have the logical size `logical_size`: a buffer is never empty.
pub fn tracked_buffer_recreate_size(current_size: Option<u64>, logical_size: u64) -> (r: Option<u64>)
    ensures
        r == (match current_size {
            Some(s) => if s == logical_size {
                None
            } else {
                Some(if logical_size >= 1 { logical_size } else { 1 })
            },
            None => Some(if logical_size >= 1 { logical_size } else { 1 }),
        }),
{
    let needs_recreate = match current_size {
        Some(s) => s != logical_size,
        None => true,
    };
    if needs_recreate {
        Some(if logical_size >= 1 { logical_size } else { 1 })
    } else {
        None
    }
}

/// The clustered lighting feature.
pub struct ClusteredLightingFeature {
    pub config: ClusteredLightingConfig,
    build_pipeline: Option<ComputePipelineId>,
    cull_pipeline: Option<ComputePipelineId>,
    params_buffer_size: Option<u64>,
    frame_params: ClusterGridParams,
}

impl ClusteredLightingFeature {
    pub closed spec fn pipelines(&self) -> (Option<ComputePipelineId>, Option<ComputePipelineId>) {
        (self.build_pipeline, self.cull_pipeline)
    }

    /// The grid of the current frame.
    pub closed spec fn params(&self) -> ClusterGridParams {
        self.frame_params
    }

    /// Size of the parameter buffer held, if one exists.
    pub closed spec fn params_buffer(&self) -> Option<u64> {
        self.params_buffer_size
    }

    pub closed spec fn settings(&self) -> ClusteredLightingConfig {
        self.config
    }

    /// A feature with the default grid, no pipelines and no buffer.
    pub fn new() -> (r: Self)
        ensures
            r.settings() == (ClusteredLightingConfig {
                tile_size_x: DEFAULT_CLUSTER_TILE_SIZE,
                tile_size_y: DEFAULT_CLUSTER_TILE_SIZE,
                slices_z: DEFAULT_CLUSTER_Z_SLICES,
                max_lights_per_cluster: DEFAULT_MAX_LIGHTS_PER_CLUSTER,
            }),
            r.pipelines() == (None::<ComputePipelineId>, None::<ComputePipelineId>),
            r.params_buffer() is None,
            r.params() == (ClusterGridParams {
                width: 0,
                height: 0,
                clusters_x: 0,
                clusters_y: 0,
                clusters_z: 0,
                total_clusters: 0,
                tile_size_x: 0,
                tile_size_y: 0,
                max_lights_per_cluster: 0,
                light_index_capacity: 0,
                flags: 0,
                active_light_count: 0,
            }),
    {
        ClusteredLightingFeature {
            config: ClusteredLightingConfig::default(),
            build_pipeline: None,
            cull_pipeline: None,
            params_buffer_size: None,
            frame_params: ClusterGridParams {
                width: 0,
                height: 0,
                clusters_x: 0,
                clusters_y: 0,
                clusters_z: 0,
                total_clusters: 0,
                tile_size_x: 0,
                tile_size_y: 0,
                max_lights_per_cluster: 0,
                light_index_capacity: 0,
                flags: 0,
                active_light_count: 0,
            },
        }
    }

    /// The integer words of this frame's cluster parameters.
    pub fn frame_params(&self) -> (r: ClusterGridParams)
        ensures
            r == self.params(),
    {
        self.frame_params
    }

    /// Bytes of the cluster AABB buffer: one AABB of `aabb_size` bytes per
    /// cluster.
    pub fn cluster_aabb_bytes(&self, aabb_size: u64) -> (r: u64)
        requires
            aabb_size <= u32::MAX,
        ensures
            r == self.params().total_clusters * aabb_size,
    {
        array_buffer_size(self.frame_params.total_clusters, aabb_size)
    }

    /// Bytes of the cluster record buffer: one record of `record_size` bytes
    /// per cluster.
    pub fn cluster_record_bytes(&self, record_size: u64) -> (r: u64)
        requires
            record_size <= u32::MAX,
        ensures
            r == self.params().total_clusters * record_size,
    {
        array_buffer_size(self.frame_params.total_clusters, record_size)
    }

    /// Bytes of the light-index buffer: one `u32` per index.
    pub fn light_index_bytes(&self) -> (r: u64)
        ensures
            r == self.params().light_index_capacity * 4,
    {
        array_buffer_size(self.frame_params.light_index_capacity, 4)
    }

    /// Whether the pipelines still have to be created: until both exist.
    pub fn needs_pipelines(&self) -> (r: bool)
        ensures
            r == (self.pipelines().0 is None || self.pipelines().1 is None),
    {
        self.build_pipeline.is_none() || self.cull_pipeline.is_none()
    }

    /// Installs the pipelines that were missing; one already present is kept.
    pub fn install_pipelines(&mut self, build: ComputePipelineId, cull: ComputePipelineId)
        ensures
            final(self).pipelines() == (
                if old(self).pipelines().0 is Some { old(self).pipelines().0 } else { Some(build) },
                if old(self).pipelines().1 is Some { old(self).pipelines().1 } else { Some(cull) },
            ),
            final(self).params() == old(self).params(),
            final(self).params_buffer() == old(self).params_buffer(),
            final(self).settings() == old(self).settings(),
    {
        if self.build_pipeline.is_none() {
            self.build_pipeline = Some(build);
        }
        if self.cull_pipeline.is_none() {
            self.cull_pipeline = Some(cull);
        }
    }

    /// Lays out this frame's cluster grid and makes sure the parameter buffer
    /// has the parameter size. Returns the size to create the buffer with,
    /// when it must be (re)created, and whether the storage limit lowered the
    /// per-cluster light cap.
    pub fn extract_and_prepare(
        &mut self,
        width: u32,
        height: u32,
        max_storage_bytes: u64,
        enabled: bool,
        active_light_count: u32,
    ) -> (r: (Option<u64>, bool))
        ensures
            final(self).params() == spec_cluster_grid(
                old(self).settings(),
                width,
                height,
                max_storage_bytes,
                enabled,
                active_light_count,
            ),
            r.1 == (final(self).params().max_lights_per_cluster < old(self).settings().max_lights_per_cluster),
            r.0 == (if old(self).params_buffer() == Some(CLUSTERED_LIGHTING_PARAMS_SIZE) {
                None
            } else {
                Some(CLUSTERED_LIGHTING_PARAMS_SIZE)
            }),
            final(self).params_buffer() == Some(CLUSTERED_LIGHTING_PARAMS_SIZE),
            final(self).pipelines() == old(self).pipelines(),
            final(self).settings() == old(self).settings(),
    {
        let (params, clamped) = cluster_grid(&self.config, width, height, max_storage_bytes, enabled, active_light_count);
        self.frame_params = params;
        let recreate = tracked_buffer_recreate_size(self.params_buffer_size, CLUSTERED_LIGHTING_PARAMS_SIZE);
        self.params_buffer_size = Some(CLUSTERED_LIGHTING_PARAMS_SIZE);
        (recreate, clamped)
    }
}

/// The outputs when clustered shading is off: only the parameters.
pub fn disabled_outputs(params_buffer: BufferNodeId) -> (r: ClusteredLightingOutputs)
    ensures
        r == (ClusteredLightingOutputs { params_buffer, cluster_records: None, light_indices: None }),
{
    ClusteredLightingOutputs { params_buffer, cluster_records: None, light_indices: None }
}

/// The per-cluster light cap never exceeds the configured one (at least 1),
/// and the light-index list holds at least one index per cluster whenever
/// the configured list fits in the storage limit.
pub proof fn lemma_cluster_budget_bounds(
    config: ClusteredLightingConfig,
    width: u32,
    height: u32,
    max_storage_bytes: u64,
    enabled: bool,
    active_light_count: u32,
)
    ensures
        ({
            let p = spec_cluster_grid(config, width, height, max_storage_bytes, enabled, active_light_count);
            &&& p.total_clusters >= 1
            &&& 1 <= p.max_lights_per_cluster
            &&& p.max_lights_per_cluster <= max_nat(config.max_lights_per_cluster as nat, 1)
        }),
{
    let tile_x = max_nat(config.tile_size_x as nat, 1);
    let tile_y = max_nat(config.tile_size_y as nat, 1);
    let cx = div_ceil_spec(width as nat, tile_x);
    let cy = div_ceil_spec(height as nat, tile_y);
    let cz = max_nat(config.slices_z as nat, 1);
    let total = max_nat(sat_mul_u32(sat_mul_u32(cx, cy), cz), 1);
    let by_limit = max_nat(max_storage_bytes as nat / 4, total);
    let per = max_nat(config.max_lights_per_cluster as nat, 1);
    let requested = total * per;
    let effective = min_nat(requested, by_limit);
    assert(effective / total <= per) by (nonlinear_arith)
        requires
            effective <= requested,
            requested == total * per,
            total >= 1,
    ;
    assert(per <= u32::MAX);
}

} // verus!
