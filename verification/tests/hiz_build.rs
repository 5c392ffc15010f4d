use myth_render::format::TextureFormat;
use myth_render::graph::passes::hiz_build::{
    hiz_dispatch_size, hiz_mip_count, hiz_mip_targets, hiz_texture_desc, HiZFeature,
};
use myth_render::pipeline::cache::ComputePipelineId;

#[test]
fn extends_mip_chain_until_minimum_size() {
    assert_eq!(hiz_mip_count(1, 1), 1);
    assert_eq!(hiz_mip_count(17, 17), 2);
    assert_eq!(hiz_mip_count(64, 32), 3);
    assert_eq!(hiz_mip_count(1920, 1080), 8);
    assert_eq!(hiz_mip_count(3840, 2160), 9);
}

#[test]
fn mip_chain_of_zero_sized_frame_is_one_level() {
    assert_eq!(hiz_mip_count(0, 0), 1);
    assert_eq!(hiz_mip_count(16, 3), 1);
}

#[test]
fn mip_targets_halve_rounding_up() {
    let t = hiz_mip_targets(100, 33);
    assert_eq!(t.len() + 1, hiz_mip_count(100, 33) as usize);
    assert_eq!((t[0].mip_level, t[0].width, t[0].height), (1, 50, 17));
    assert_eq!((t[1].mip_level, t[1].width, t[1].height), (2, 25, 9));
    assert_eq!((t[2].mip_level, t[2].width, t[2].height), (3, 13, 5));
}

#[test]
fn dispatch_covers_the_mip() {
    assert_eq!(hiz_dispatch_size(1920, 1080), (240, 135));
    assert_eq!(hiz_dispatch_size(17, 1), (3, 1));
    assert_eq!(hiz_dispatch_size(0, 0), (0, 0));
}

#[test]
fn pyramid_texture_holds_the_whole_chain() {
    let d = hiz_texture_desc(1920, 1080);
    assert_eq!(d.mip_level_count, 8);
    assert_eq!(d.format, TextureFormat::R32Float);
    assert_eq!(d.usage, 4 | 8);
}

#[test]
fn hiz_pipelines_are_created_once() {
    let mut f = HiZFeature::new();
    assert!(f.needs_pipelines());
    f.install_pipelines(ComputePipelineId(1), ComputePipelineId(2));
    assert!(!f.needs_pipelines());
}
