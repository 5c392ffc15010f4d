//! Renderer settings and render-path configuration.
use vstd::prelude::*;

use crate::format::{TextureFormat, HDR_TEXTURE_FORMAT};

verus! {

/// Determines the pipeline topology: which passes are assembled, whether HDR
/// intermediates are allocated and which post-processing chain is available.
#[derive(Debug, Clone, Copy, Hash, PartialEq, Eq, Structural)]
pub enum RenderPath {
    /// Lightweight forward rendering straight to the surface (LDR).
    BasicForward,
    /// HDR targets with the full post-processing chain.
    HighFidelity,
}

impl Default for RenderPath {
    fn default() -> (r: Self)
        ensures
            r == RenderPath::HighFidelity,
    {
        RenderPath::HighFidelity
    }
}

impl RenderPath {
    /// Whether this path enables post-processing (HDR targets, bloom, tone
    /// mapping, FXAA, ...).
    pub open spec fn spec_supports_post_processing(self) -> bool {
        self == RenderPath::HighFidelity
    }

    /// Returns `true` when this path enables post-processing.
    pub fn supports_post_processing(&self) -> (r: bool)
        ensures
            r == self.spec_supports_post_processing(),
    {
        match self {
            RenderPath::HighFidelity => true,
            RenderPath::BasicForward => false,
        }
    }

    /// Returns `true` when this path supports a depth-normal prepass.
    pub fn requires_z_prepass(&self) -> (r: bool)
        ensures
            r == (*self == RenderPath::HighFidelity),
    {
        match self {
            RenderPath::HighFidelity => true,
            RenderPath::BasicForward => false,
        }
    }

    /// The main colour attachment format for scene rendering: the HDR format
    /// on the high-fidelity path, the supplied surface format otherwise.
    pub fn main_color_format(&self, surface_format: TextureFormat) -> (r: TextureFormat)
        ensures
            *self == RenderPath::HighFidelity ==> r == HDR_TEXTURE_FORMAT,
            *self == RenderPath::BasicForward ==> r == surface_format,
    {
        match self {
            RenderPath::HighFidelity => HDR_TEXTURE_FORMAT,
            RenderPath::BasicForward => surface_format,
        }
    }
}

/// Controls when clustered forward lighting is used.
#[derive(Debug, Clone, Copy, Hash, PartialEq, Eq, Structural)]
pub enum ClusteredShadingMode {
    /// Always use the classic forward light loop.
    ForceOff,
    /// Switch to clustered shading once `threshold` lights are present.
    Auto { threshold: u32 },
    /// Always use clustered shading, even for a single light.
    ForceOn,
}

impl ClusteredShadingMode {
    /// Whether clustered lighting is active for `light_count` lights.
    pub open spec fn spec_is_enabled(self, light_count: u32) -> bool {
        match self {
            ClusteredShadingMode::ForceOff => false,
            ClusteredShadingMode::ForceOn => true,
            ClusteredShadingMode::Auto { threshold } => light_count >= threshold,
        }
    }

    /// Resolves the effective clustered-lighting state for the current frame.
    pub fn is_enabled(self, light_count: u32) -> (r: bool)
        ensures
            r == self.spec_is_enabled(light_count),
    {
        match self {
            ClusteredShadingMode::ForceOff => false,
            ClusteredShadingMode::ForceOn => true,
            ClusteredShadingMode::Auto { threshold } => light_count >= threshold,
        }
    }
}

/// The light count at which the default `Auto` mode switches to clustered
/// shading.
pub const DEFAULT_CLUSTERED_THRESHOLD: u32 = 16;

impl Default for ClusteredShadingMode {
    fn default() -> (r: Self)
        ensures
            r == (ClusteredShadingMode::Auto { threshold: DEFAULT_CLUSTERED_THRESHOLD }),
    {
        ClusteredShadingMode::Auto { threshold: DEFAULT_CLUSTERED_THRESHOLD }
    }
}

/// Once the light count reaches the threshold, `Auto` stays enabled for every
/// larger light count; below it, it stays disabled for every smaller count.
pub proof fn lemma_auto_threshold_monotone(threshold: u32, a: u32, b: u32)
    requires
        a <= b,
    ensures
        (ClusteredShadingMode::Auto { threshold }).spec_is_enabled(a) ==> (
        ClusteredShadingMode::Auto { threshold }).spec_is_enabled(b),
        (ClusteredShadingMode::Auto { threshold }).spec_is_enabled(b) <==> b >= threshold,
{
}

/// The forced modes ignore the light count entirely.
pub proof fn lemma_forced_modes_ignore_light_count(a: u32, b: u32)
    ensures
        ClusteredShadingMode::ForceOn.spec_is_enabled(a),
        !ClusteredShadingMode::ForceOff.spec_is_enabled(b),
{
}

/// Runtime rendering configuration.
#[derive(Debug, Clone, Copy, PartialEq, Eq, Structural)]
pub struct RendererSettings {
    /// The rendering pipeline topology.
    pub path: RenderPath,
    /// Enable vertical synchronization.
    pub vsync: bool,
    /// Global anisotropic filtering level for default texture samplers.
    pub anisotropy_clamp: u16,
    /// Runtime policy for clustered forward lighting.
    pub clustered_shading: ClusteredShadingMode,
}

impl RendererSettings {
    /// The default runtime settings.
    pub open spec fn spec_default() -> RendererSettings {
        RendererSettings {
            path: RenderPath::HighFidelity,
            vsync: true,
            anisotropy_clamp: 1,
            clustered_shading: ClusteredShadingMode::Auto { threshold: DEFAULT_CLUSTERED_THRESHOLD },
        }
    }
}

impl Default for RendererSettings {
    fn default() -> (r: Self)
        ensures
            r == RendererSettings::spec_default(),
    {
        RendererSettings {
            path: RenderPath::default(),
            vsync: true,
            anisotropy_clamp: 1,
            clustered_shading: ClusteredShadingMode::default(),
        }
    }
}

} // verus!
