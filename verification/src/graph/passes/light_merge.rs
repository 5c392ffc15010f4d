//! Merging of CPU-uploaded and GPU-generated local lights into one list.
use vstd::prelude::*;

use crate::graph::node::BufferNodeId;
use crate::graph::passes::hiz_build::{div_ceil_spec, u32_div_ceil};
use crate::pipeline::cache::ComputePipelineId;

verus! {

/// Threads per workgroup of the merge dispatch.
pub const LIGHT_MERGE_WG_SIZE: u32 = 64;

/// The merge shader: copies the CPU lights, then the GPU lights, into the
/// merged list, clamped to each buffer's length, and publishes the count.
pub const LIGHT_MERGE_SHADER_TEMPLATE: &'static str = "
{{ scene_lighting_structs }}

@group(0) @binding(0) var<uniform> u_cpu_light_metadata: LightBufferMetadata;
@group(0) @binding(1) var<storage, read> st_cpu_lights: array<Struct_lights>;
@group(0) @binding(2) var<uniform> u_gpu_light_metadata: LightBufferMetadata;
@group(0) @binding(3) var<storage, read> st_gpu_lights: array<Struct_lights>;
@group(0) @binding(4) var<storage, read_write> st_merged_light_metadata: LightBufferMetadata;
@group(0) @binding(5) var<storage, read_write> st_merged_lights: array<Struct_lights>;
@group(0) @binding(6) var<storage, read_write> st_merged_indirect_count: array<u32>;

@compute @workgroup_size({{ light_merge_workgroup_size }})
fn main(@builtin(global_invocation_id) gid: vec3<u32>) {
    let index = gid.x;
    let raw_cpu_count = u_cpu_light_metadata.total_light_count;
    let cpu_count = min(raw_cpu_count, arrayLength(&st_cpu_lights));
    let raw_gpu_count = u_gpu_light_metadata.total_light_count;
    let gpu_count = min(raw_gpu_count, arrayLength(&st_gpu_lights));
    let total_count = min(cpu_count + gpu_count, arrayLength(&st_merged_lights));

    if (index == 0u) {
        st_merged_light_metadata.total_light_count = total_count;
        st_merged_light_metadata.active_local_light_count = total_count;
        st_merged_light_metadata.reserved_0 = 0u;
        st_merged_light_metadata.reserved_1 = 0u;
        st_merged_indirect_count[0] = total_count;
    }

    if (index >= total_count) {
        return;
    }

    if (index < cpu_count) {
        st_merged_lights[index] = st_cpu_lights[index];
        return;
    }

    let gpu_index = index - cpu_count;
    st_merged_lights[index] = st_gpu_lights[gpu_index];
}
";

/// Buffers the merge produces.
#[derive(Debug, Clone, Copy, PartialEq, Eq, Structural)]
pub struct LightMergePassOutputs {
    pub light_metadata: BufferNodeId,
    pub light_storage: BufferNodeId,
    pub indirect_count_buffer: BufferNodeId,
}

/// How many lights of `bytes_per_light` bytes a buffer of `logical_size`
/// bytes holds: at least 1, at most `u32::MAX`.
pub open spec fn spec_light_capacity(logical_size: u64, bytes_per_light: u64) -> u32 {
    let n = logical_size / bytes_per_light;
    let n1 = if n >= 1 { n } else { 1 };
    if n1 <= u32::MAX { n1 as u32 } else { u32::MAX }
}

/// The light capacity of a light storage buffer.
pub fn light_capacity_from_desc(logical_size: u64, bytes_per_light: u64) -> (r: u32)
    requires
        bytes_per_light > 0,
    ensures
        r == spec_light_capacity(logical_size, bytes_per_light),
{
    let n = logical_size / bytes_per_light;
    let n1: u64 = if n >= 1 { n } else { 1 };
    if n1 <= u32::MAX as u64 {
        n1 as u32
    } else {
        u32::MAX
    }
}

/// Size of the merged list: room for every CPU and GPU light (saturating at
/// `u32::MAX`, at least 1), and its bytes (saturating at `u64::MAX`).
#[derive(Debug, Clone, Copy, PartialEq, Eq, Structural)]
pub struct MergedLightBudget {
    pub merged_capacity: u32,
    pub storage_size: u64,
}

pub open spec fn spec_merged_budget(cpu_light_capacity: u32, gpu_capacity: u32, bytes_per_light: u64) -> MergedLightBudget {
    let sum = cpu_light_capacity + gpu_capacity;
    let sat = if sum <= u32::MAX { sum } else { u32::MAX as int };
    let cap = if sat >= 1 { sat } else { 1 };
    let bytes = cap * bytes_per_light;
    MergedLightBudget {
        merged_capacity: cap as u32,
        storage_size: if bytes <= u64::MAX { bytes as u64 } else { u64::MAX },
    }
}

/// The merged list's capacity and bytes for `cpu_light_capacity` CPU lights
/// and a GPU light buffer of `gpu_storage_size` bytes.
pub fn merged_light_budget(cpu_light_capacity: u32, gpu_storage_size: u64, bytes_per_light: u64) -> (r: MergedLightBudget)
    requires
        bytes_per_light > 0,
    ensures
        r == spec_merged_budget(
            cpu_light_capacity,
            spec_light_capacity(gpu_storage_size, bytes_per_light),
            bytes_per_light,
        ),
        r.merged_capacity >= 1,
{
    let gpu_capacity = light_capacity_from_desc(gpu_storage_size, bytes_per_light);
    let sum: u64 = cpu_light_capacity as u64 + gpu_capacity as u64;
    let sat: u32 = if sum <= u32::MAX as u64 { sum as u32 } else { u32::MAX };
    let cap: u32 = if sat >= 1 { sat } else { 1 };
    let storage_size: u64 = match (cap as u64).checked_mul(bytes_per_light) {
        Some(b) => b,
        None => u64::MAX,
    };
    MergedLightBudget { merged_capacity: cap, storage_size }
}

/// Workgroups of the merge dispatch: one thread per merged light.
pub fn merge_dispatch_size(merged_capacity: u32) -> (r: u32)
    ensures
        r == div_ceil_spec(merged_capacity as nat, LIGHT_MERGE_WG_SIZE as nat),
{
    u32_div_ceil(merged_capacity, LIGHT_MERGE_WG_SIZE)
}

/// The light merge feature: its pipeline, created once.
pub struct LightMergeFeature {
    pipeline: Option<ComputePipelineId>,
}

impl LightMergeFeature {
    pub closed spec fn pipeline(&self) -> Option<ComputePipelineId> {
        self.pipeline
    }

    /// A feature without its pipeline.
    pub fn new() -> (r: Self)
        ensures
            r.pipeline() is None,
    {
        LightMergeFeature { pipeline: None }
    }

    /// Whether the pipeline still has to be created.
    pub fn needs_pipeline(&self) -> (r: bool)
        ensures
            r == self.pipeline() is None,
    {
        self.pipeline.is_none()
    }

    /// Installs the pipeline.
    pub fn install_pipeline(&mut self, id: ComputePipelineId)
        ensures
            final(self).pipeline() == Some(id),
    {
        self.pipeline = Some(id);
    }
}

} // verus!
