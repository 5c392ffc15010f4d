use myth_render::graph::passes::ssr::{ssr_graph_plan, ssr_passes, SsrFeature, SsrPass, SSR_HISTORY_FLAG_VALID};

const CAMERA_CUT_FLAG: u32 = 1 << 1;

#[test]
fn sync_history_flags_clears_stale_history_bit() {
    let mut feature = SsrFeature::new();
    let current = SSR_HISTORY_FLAG_VALID | CAMERA_CUT_FLAG;
    feature.invalidate_history();
    let (flags, changed) = feature.sync_history_flags(current);
    assert_eq!(flags, CAMERA_CUT_FLAG);
    assert!(changed);
}

#[test]
fn sync_history_flags_preserves_external_runtime_bits() {
    let mut feature = SsrFeature::new();
    let current = CAMERA_CUT_FLAG;
    feature.history_valid = true;
    let (flags, changed) = feature.sync_history_flags(current);
    assert_eq!(flags, SSR_HISTORY_FLAG_VALID | CAMERA_CUT_FLAG);
    assert!(changed);
}

#[test]
fn sync_history_flags_reports_no_change_when_in_sync() {
    let mut feature = SsrFeature::new();
    feature.history_valid = true;
    let (flags, changed) = feature.sync_history_flags(SSR_HISTORY_FLAG_VALID);
    assert_eq!(flags, SSR_HISTORY_FLAG_VALID);
    assert!(!changed);
}

#[test]
fn resize_reallocates_and_drops_history() {
    let mut feature = SsrFeature::new();
    assert!(feature.ensure_history_buffers(800, 600));
    feature.finish_frame();
    assert!(feature.history_valid);
    assert!(!feature.ensure_history_buffers(800, 600));
    assert!(feature.history_valid);
    assert!(feature.ensure_history_buffers(1024, 600));
    assert!(!feature.history_valid);
}

#[test]
fn ssr_chain_order_and_targets() {
    let p = ssr_passes();
    assert_eq!(
        p,
        vec![
            SsrPass::Trace,
            SsrPass::Temporal,
            SsrPass::Resolve,
            SsrPass::Merge,
            SsrPass::SaveHistoryReflection,
            SsrPass::SaveHistoryMeta
        ]
    );
    let plan = ssr_graph_plan(640, 360);
    assert_eq!((plan.raw_desc.width, plan.raw_desc.height), (640, 360));
    assert_eq!(plan.temporal_desc.usage, 16 | 4 | 1);
    assert_eq!(plan.clean_desc, plan.raw_desc);
}

#[test]
fn history_is_valid_only_after_a_frame_since_the_last_drop() {
    let mut f = SsrFeature::new();
    assert_eq!(f.history_flags(), 0);
    assert!(f.ensure_history_buffers(64, 64));
    assert_eq!(f.history_flags(), 0);
    f.finish_frame();
    assert_eq!(f.history_flags(), 1);
    assert!(!f.ensure_history_buffers(64, 64));
    f.set_prepared_max_steps(48);
    assert_eq!(f.history_flags(), 1);
    assert!(f.ensure_history_buffers(32, 64));
    assert_eq!(f.history_flags(), 0);
    f.finish_frame();
    f.invalidate_history();
    assert_eq!(f.history_flags(), 0);
}
