use myth_render::format::TextureFormat;
use myth_render::graph::node::{USAGE_COPY_DST, USAGE_TEXTURE_BINDING};
use myth_render::graph::passes::ssgi::{
    atrous_step_width, persistent_texture_desc, pyramid_mip_count, SsgiFeature, SsgiPass,
};

#[test]
fn pyramid_mip_count_is_floor_log2_plus_one() {
    assert_eq!(pyramid_mip_count(1, 1), 1);
    assert_eq!(pyramid_mip_count(0, 0), 1);
    assert_eq!(pyramid_mip_count(1920, 1080), 11);
    assert_eq!(pyramid_mip_count(1024, 1), 11);
    assert_eq!(pyramid_mip_count(1023, 7), 10);
}

#[test]
fn history_flags_and_invalidation() {
    let mut f = SsgiFeature::new();
    assert_eq!(f.history_flags(), 0);
    assert!(f.ensure_history_buffers(640, 480));
    assert_eq!(f.half_resolution, (320, 240));
    f.finish_frame(true);
    assert_eq!(f.history_flags(), 3);
    assert!(!f.ensure_history_buffers(640, 480));
    assert_eq!(f.history_flags(), 3);
    assert!(f.ensure_history_buffers(641, 480));
    assert_eq!(f.history_flags(), 0);
}

#[test]
fn taa_history_stands_in_only_after_a_taa_frame() {
    let mut f = SsgiFeature::new();
    assert!(!f.use_taa_source_history(true));
    f.finish_frame(true);
    assert!(f.use_taa_source_history(true));
    assert!(!f.use_taa_source_history(false));
    f.finish_frame(false);
    assert!(!f.use_taa_source_history(true));
}

#[test]
fn atrous_passes_are_clamped() {
    let mut f = SsgiFeature::new();
    assert_eq!(f.prepare_atrous_passes(0), 1);
    assert_eq!(f.prepare_atrous_passes(9), 4);
    assert_eq!(f.prepare_atrous_passes(2), 2);
    assert_eq!(atrous_step_width(3), 8);
}

#[test]
fn ssgi_chain_plan() {
    let mut f = SsgiFeature::new();
    f.prepare_atrous_passes(3);
    let plan = f.plan_graph(1280, 720, false);
    assert_eq!((plan.raw_desc.width, plan.raw_desc.height), (640, 360));
    assert_eq!((plan.merged_desc.width, plan.merged_desc.height), (1280, 720));
    assert!(!plan.use_taa_source_history);
    assert_eq!(
        plan.passes,
        vec![
            SsgiPass::Raw,
            SsgiPass::Temporal,
            SsgiPass::Atrous { step_width: 1 },
            SsgiPass::Atrous { step_width: 2 },
            SsgiPass::Atrous { step_width: 4 },
            SsgiPass::Merge,
            SsgiPass::SaveHistoryIndirect,
            SsgiPass::SaveHistoryMeta,
            SsgiPass::SaveSourceHistory,
        ]
    );
}

#[test]
fn history_targets_are_sampled_and_copied_into() {
    let d = persistent_texture_desc(640, 360, TextureFormat::Rgba16Float);
    assert_eq!((d.width, d.height), (640, 360));
    assert_eq!(d.mip_level_count, 1);
    assert_eq!(d.sample_count, 1);
    assert_eq!(d.usage, USAGE_TEXTURE_BINDING | USAGE_COPY_DST);
}

#[test]
fn both_histories_follow_the_last_drop() {
    let mut f = SsgiFeature::new();
    assert_eq!(f.history_flags(), 0);
    assert!(f.ensure_history_buffers(64, 64));
    f.finish_frame(true);
    assert_eq!(f.history_flags(), 3);
    f.prepare_atrous_passes(9);
    assert!(!f.ensure_history_buffers(64, 64));
    assert_eq!(f.history_flags(), 3);
    assert!(f.ensure_history_buffers(128, 64));
    assert_eq!(f.history_flags(), 0);
    f.finish_frame(false);
    f.invalidate_history();
    assert_eq!(f.history_flags(), 0);
}
