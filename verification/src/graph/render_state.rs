//! Render-state selections resolved per frame.
use vstd::prelude::*;

verus! {

/// Debug visualisation requested on the camera.
#[derive(Debug, Clone, Copy, PartialEq, Eq, Structural, Hash)]
pub enum DebugViewMode {
    Disabled,
    Depth,
    Normal,
    Velocity,
    SSAO,
    ClusterHeatmap,
    Albedo,
    Roughness,
    Metalness,
}

/// Semantic identifier of the intermediate render texture to visualise.
///
/// Material-override modes (albedo, roughness, metalness) resolve to no
/// target (`Disabled`): they are handled through shader defines instead.
#[derive(Debug, Clone, Copy, PartialEq, Eq, Structural, Hash)]
pub enum DebugViewTarget {
    Disabled,
    SceneDepth,
    SceneNormal,
    Velocity,
    SsaoRaw,
    ClusterHeatmap,
}

impl Default for DebugViewTarget {
    fn default() -> (r: Self)
        ensures
            r == DebugViewTarget::Disabled,
    {
        DebugViewTarget::Disabled
    }
}

impl DebugViewTarget {
    /// The target a debug-view mode resolves to.
    pub open spec fn spec_from_mode(mode: DebugViewMode) -> DebugViewTarget {
        match mode {
            DebugViewMode::SSAO => DebugViewTarget::SsaoRaw,
            DebugViewMode::Normal => DebugViewTarget::SceneNormal,
            DebugViewMode::Velocity => DebugViewTarget::Velocity,
            DebugViewMode::Depth => DebugViewTarget::SceneDepth,
            DebugViewMode::ClusterHeatmap => DebugViewTarget::ClusterHeatmap,
            _ => DebugViewTarget::Disabled,
        }
    }

    /// Maps a debug-view mode to the render-layer target; material-override
    /// modes map to `Disabled`.
    pub fn from_mode(mode: DebugViewMode) -> (r: Self)
        ensures
            r == Self::spec_from_mode(mode),
    {
        match mode {
            DebugViewMode::SSAO => DebugViewTarget::SsaoRaw,
            DebugViewMode::Normal => DebugViewTarget::SceneNormal,
            DebugViewMode::Velocity => DebugViewTarget::Velocity,
            DebugViewMode::Depth => DebugViewTarget::SceneDepth,
            DebugViewMode::ClusterHeatmap => DebugViewTarget::ClusterHeatmap,
            _ => DebugViewTarget::Disabled,
        }
    }

    /// The `view_mode` uniform value the debug shader switches on.
    pub open spec fn spec_view_mode(self) -> u32 {
        match self {
            DebugViewTarget::Disabled => 0,
            DebugViewTarget::SsaoRaw => 1,
            DebugViewTarget::SceneNormal => 2,
            DebugViewTarget::Velocity => 3,
            DebugViewTarget::SceneDepth => 4,
            DebugViewTarget::ClusterHeatmap => 5,
        }
    }

    /// WGSL `view_mode` uniform value for the debug shader.
    pub fn view_mode(self) -> (r: u32)
        ensures
            r == self.spec_view_mode(),
    {
        match self {
            DebugViewTarget::Disabled => 0,
            DebugViewTarget::SsaoRaw => 1,
            DebugViewTarget::SceneNormal => 2,
            DebugViewTarget::Velocity => 3,
            DebugViewTarget::SceneDepth => 4,
            DebugViewTarget::ClusterHeatmap => 5,
        }
    }

    /// Whether the target is a depth texture (visualised through the depth
    /// layout of the debug shader).
    pub fn is_depth(self) -> (r: bool)
        ensures
            r == (self == DebugViewTarget::SceneDepth || self == DebugViewTarget::ClusterHeatmap),
    {
        match self {
            DebugViewTarget::SceneDepth => true,
            DebugViewTarget::ClusterHeatmap => true,
            _ => false,
        }
    }
}

/// Distinct targets are told apart by the shader: `view_mode` is injective.
pub proof fn lemma_view_mode_injective(a: DebugViewTarget, b: DebugViewTarget)
    ensures
        a.spec_view_mode() == b.spec_view_mode() ==> a == b,
        a.spec_view_mode() <= 5,
        (a.spec_view_mode() == 0) == (a == DebugViewTarget::Disabled),
{
}

/// Each visualisation mode shows its own texture: SSAO the raw occlusion,
/// normals the scene normals, velocity the motion vectors, depth the scene
/// depth and the cluster heat map its own target; material-override modes
/// and a disabled view show no texture. Distinct visualisation modes never
/// share a target, so the shader's `view_mode` tells them apart too.
pub proof fn lemma_from_mode_distinguishes_modes(a: DebugViewMode, b: DebugViewMode)
    ensures
        DebugViewTarget::spec_from_mode(a) == (match a {
            DebugViewMode::SSAO => DebugViewTarget::SsaoRaw,
            DebugViewMode::Normal => DebugViewTarget::SceneNormal,
            DebugViewMode::Velocity => DebugViewTarget::Velocity,
            DebugViewMode::Depth => DebugViewTarget::SceneDepth,
            DebugViewMode::ClusterHeatmap => DebugViewTarget::ClusterHeatmap,
            DebugViewMode::Disabled | DebugViewMode::Albedo | DebugViewMode::Roughness
            | DebugViewMode::Metalness => DebugViewTarget::Disabled,
        }),
        DebugViewTarget::spec_from_mode(a) != DebugViewTarget::Disabled && DebugViewTarget::spec_from_mode(
            a,
        ) == DebugViewTarget::spec_from_mode(b) ==> a == b,
        DebugViewTarget::spec_from_mode(a) != DebugViewTarget::Disabled && a != b
            ==> DebugViewTarget::spec_from_mode(a).spec_view_mode() != DebugViewTarget::spec_from_mode(
            b,
        ).spec_view_mode(),
{
}

} // verus!
