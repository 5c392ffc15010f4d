use myth_render::format::TextureFormat;
use myth_render::settings::{ClusteredShadingMode, RenderPath, RendererSettings};

#[test]
fn clustered_auto_threshold_switches_at_threshold() {
    let mode = ClusteredShadingMode::Auto { threshold: 16 };
    assert!(!mode.is_enabled(15));
    assert!(mode.is_enabled(16));
    assert!(mode.is_enabled(64));
}

#[test]
fn clustered_force_modes_override_threshold_logic() {
    assert!(!ClusteredShadingMode::ForceOff.is_enabled(10_000));
    assert!(ClusteredShadingMode::ForceOn.is_enabled(0));
}

#[test]
fn renderer_settings_default_clustered_mode_is_auto() {
    assert_eq!(
        RendererSettings::default().clustered_shading,
        ClusteredShadingMode::Auto { threshold: 16 }
    );
}

#[test]
fn auto_mode_is_monotone_in_light_count() {
    let mode = ClusteredShadingMode::Auto { threshold: 8 };
    let mut was_enabled = false;
    for n in 0..32 {
        let e = mode.is_enabled(n);
        assert!(!was_enabled || e);
        assert_eq!(e, n >= 8);
        was_enabled = e;
    }
}

#[test]
fn render_path_capabilities() {
    assert!(RenderPath::HighFidelity.supports_post_processing());
    assert!(RenderPath::HighFidelity.requires_z_prepass());
    assert!(!RenderPath::BasicForward.supports_post_processing());
    assert!(!RenderPath::BasicForward.requires_z_prepass());
    assert_eq!(RenderPath::default(), RenderPath::HighFidelity);
}

#[test]
fn main_color_format_follows_path() {
    assert_eq!(
        RenderPath::HighFidelity.main_color_format(TextureFormat::Bgra8UnormSrgb),
        TextureFormat::Rgba16Float
    );
    assert_eq!(
        RenderPath::BasicForward.main_color_format(TextureFormat::Bgra8UnormSrgb),
        TextureFormat::Bgra8UnormSrgb
    );
}

#[test]
fn renderer_settings_defaults() {
    let s = RendererSettings::default();
    assert_eq!(s.path, RenderPath::HighFidelity);
    assert!(s.vsync);
    assert_eq!(s.anisotropy_clamp, 1);
}
