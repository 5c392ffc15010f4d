use myth_render::format::TextureFormat;
use myth_render::graph::node::{
    FrameConfig, GraphTextures, TextureNodeId, TextureVersion, USAGE_COPY_SRC, USAGE_RENDER_ATTACHMENT, USAGE_TEXTURE_BINDING,
};
use myth_render::graph::passes::opaque::{color_attachment_order, mrt_output, OpaqueAttachment, OpaqueFeature};
use myth_render::graph::passes::simple_forward::{ForwardStep, SimpleForwardFeature};
use myth_render::graph::passes::transparent::TransparentFeature;

fn fc(msaa: u32) -> FrameConfig {
    FrameConfig {
        width: 640,
        height: 480,
        msaa_samples: msaa,
        depth_format: TextureFormat::Depth32Float,
        surface_format: TextureFormat::Bgra8UnormSrgb,
        hdr_format: TextureFormat::Rgba16Float,
    }
}

#[test]
fn opaque_targets_without_msaa() {
    let p = OpaqueFeature::new().plan_targets(&fc(1), true, false);
    assert_eq!(p.color.sample_count, 1);
    assert_eq!(p.color.format, TextureFormat::Rgba16Float);
    assert_eq!(p.color.usage, 16 | 4 | 1);
    assert_eq!(p.msaa_depth, None);
    let spec = p.specular.unwrap();
    assert_eq!(spec.msaa, None);
    assert_eq!(p.material, None);
}

#[test]
fn opaque_targets_with_msaa() {
    let p = OpaqueFeature::new().plan_targets(&fc(4), true, true);
    assert_eq!(p.color.sample_count, 4);
    assert_eq!(p.color.usage, 16);
    assert_eq!(p.msaa_depth.unwrap().format, TextureFormat::Depth32Float);
    assert_eq!(p.specular.unwrap().msaa.unwrap().sample_count, 4);
    assert_eq!(p.material.unwrap().single.format, TextureFormat::Rgba8Unorm);
}

#[test]
fn opaque_outputs_prefer_resolved_mrts() {
    let f = OpaqueFeature::new();
    let o = f.wire_outputs(
        TextureNodeId(1),
        TextureNodeId(2),
        true,
        TextureNodeId(3),
        Some(TextureNodeId(4)),
        false,
        TextureNodeId(0),
        None,
    );
    assert_eq!(o.specular_mrt, Some(TextureNodeId(4)));
    assert_eq!(o.material_mrt, None);
    assert_eq!(mrt_output(true, TextureNodeId(5), None), Some(TextureNodeId(5)));
}

#[test]
fn opaque_attachments_skip_culled_mrts() {
    assert_eq!(
        color_attachment_order(true, true, true, false),
        vec![OpaqueAttachment::Color, OpaqueAttachment::Specular]
    );
    assert_eq!(color_attachment_order(false, true, false, true), vec![OpaqueAttachment::Color]);
}

#[test]
fn transparent_resolves_with_msaa() {
    let t = TransparentFeature::new();
    assert!(t.needs_resolve(&fc(4)));
    assert!(!t.needs_resolve(&fc(1)));
    assert_eq!(t.result(TextureNodeId(1), Some(TextureNodeId(2))), TextureNodeId(2));
    assert_eq!(t.result(TextureNodeId(1), None), TextureNodeId(1));
    assert!(!t.draws(0));
    assert!(t.draws(3));
}

#[test]
fn simple_forward_targets_and_order() {
    let f = SimpleForwardFeature::new();
    assert_eq!(f.depth_desc(&fc(4)).sample_count, 4);
    assert_eq!(f.msaa_desc(&fc(1)), None);
    assert_eq!(f.msaa_desc(&fc(4)).unwrap().format, TextureFormat::Bgra8UnormSrgb);
    assert_eq!(f.color_target(TextureNodeId(1), Some(TextureNodeId(2))), (TextureNodeId(2), Some(TextureNodeId(1))));
    assert_eq!(f.color_target(TextureNodeId(1), None), (TextureNodeId(1), None));
    assert_eq!(
        f.draw_sequence(true),
        vec![ForwardStep::Opaque, ForwardStep::Skybox, ForwardStep::RestoreBindings, ForwardStep::Transparent]
    );
    assert_eq!(f.draw_sequence(false), vec![ForwardStep::Opaque, ForwardStep::Transparent]);
}

fn created(g: &GraphTextures, id: TextureNodeId) -> myth_render::graph::node::TextureDesc {
    match g.version(id) {
        Some(TextureVersion::Created(d)) => d,
        other => panic!("not a created texture: {:?}", other),
    }
}

#[test]
fn opaque_with_msaa_returns_resolve_mrts() {
    let mut g = GraphTextures::new();
    let depth = g.create_texture(OpaqueFeature::new().plan_targets(&fc(1), false, false).color);
    let out = OpaqueFeature::new().add_to_graph(&mut g, &fc(4), depth, true, true);
    assert_eq!(g.len(), 7);
    assert_eq!(created(&g, out.active_color).sample_count, 4);
    assert_eq!(created(&g, out.active_depth).sample_count, 4);
    assert_eq!(created(&g, out.active_depth).format, TextureFormat::Depth32Float);
    let spec = created(&g, out.specular_mrt.unwrap());
    assert_eq!(spec.sample_count, 1);
    assert_eq!(spec.format, TextureFormat::Rgba16Float);
    let mat = created(&g, out.material_mrt.unwrap());
    assert_eq!(mat.sample_count, 1);
    assert_eq!(mat.format, TextureFormat::Rgba8Unorm);
    assert_eq!(mat.usage, USAGE_RENDER_ATTACHMENT | USAGE_TEXTURE_BINDING | USAGE_COPY_SRC);
}

#[test]
fn opaque_without_msaa_reuses_scene_depth() {
    let mut g = GraphTextures::new();
    let depth = g.create_texture(OpaqueFeature::new().plan_targets(&fc(1), false, false).color);
    let out = OpaqueFeature::new().add_to_graph(&mut g, &fc(1), depth, false, true);
    assert_eq!(out.active_depth, depth);
    assert_eq!(out.specular_mrt, None);
    assert_eq!(g.len(), 3);
    assert_eq!(created(&g, out.active_color).sample_count, 1);
    assert_eq!(created(&g, out.material_mrt.unwrap()).sample_count, 1);
}

#[test]
fn transparent_result_is_resolve_or_alias() {
    let t = TransparentFeature::new();
    let mut g = GraphTextures::new();
    let color = g.create_texture(OpaqueFeature::new().plan_targets(&fc(4), false, false).color);
    let r = t.add_to_graph(&mut g, &fc(4), color);
    assert_eq!(g.version(TextureNodeId(1)), Some(TextureVersion::Alias(color)));
    assert_ne!(r, color);
    assert_ne!(r, TextureNodeId(1));
    let d = created(&g, r);
    assert_eq!((d.width, d.height, d.sample_count), (640, 480, 1));
    assert_eq!(d.format, TextureFormat::Rgba16Float);
    let mut g1 = GraphTextures::new();
    let c1 = g1.create_texture(OpaqueFeature::new().plan_targets(&fc(1), false, false).color);
    let r1 = t.add_to_graph(&mut g1, &fc(1), c1);
    assert_eq!(g1.version(r1), Some(TextureVersion::Alias(c1)));
    assert_eq!(g1.len(), 2);
}
