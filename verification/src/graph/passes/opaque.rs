//! Opaque geometry pass: its render targets (MSAA or not, with optional
//! specular and material MRTs) and how they are wired downstream.
use vstd::prelude::*;

use crate::format::{TextureFormat, HDR_TEXTURE_FORMAT};
use crate::graph::node::{
    FrameConfig, GraphTextures, TextureDesc, TextureNodeId, TextureVersion, USAGE_COPY_SRC,
    USAGE_RENDER_ATTACHMENT, USAGE_TEXTURE_BINDING,
};

verus! {

/// The targets the opaque pass leaves for downstream passes.
#[derive(Debug, Clone, Copy, PartialEq, Eq, Structural)]
pub struct OpaqueOutputs {
    pub active_color: TextureNodeId,
    pub active_depth: TextureNodeId,
    pub specular_mrt: Option<TextureNodeId>,
    pub material_mrt: Option<TextureNodeId>,
}

/// A multiple-render-target texture: the single-sampled one read
/// downstream, and with MSAA the multisampled one drawn into and resolved.
#[derive(Debug, Clone, Copy, PartialEq, Eq, Structural)]
pub struct MrtTargets {
    pub single: TextureDesc,
    pub msaa: Option<TextureDesc>,
}

/// The textures the opaque pass creates.
#[derive(Debug, Clone, Copy, PartialEq, Eq, Structural)]
pub struct OpaqueTargetPlan {
    /// The colour target: multisampled with MSAA, else the HDR scene colour.
    pub color: TextureDesc,
    /// With MSAA, a multisampled depth target; otherwise the incoming
    /// scene depth is used.
    pub msaa_depth: Option<TextureDesc>,
    pub specular: Option<MrtTargets>,
    pub material: Option<MrtTargets>,
}

/// The colour attachments of the pass, in binding order.
#[derive(Debug, Clone, Copy, PartialEq, Eq, Structural)]
pub enum OpaqueAttachment {
    Color,
    Specular,
    Material,
}

/// Usage of a single-sampled target read downstream.
pub open spec fn readable_target_usage() -> u32 {
    USAGE_RENDER_ATTACHMENT | USAGE_TEXTURE_BINDING | USAGE_COPY_SRC
}

/// The MRT textures of `format`, when needed.
pub open spec fn spec_mrt(fc: FrameConfig, format: TextureFormat, needed: bool) -> Option<MrtTargets> {
    if needed {
        Some(
            MrtTargets {
                single: TextureDesc {
                    width: fc.width,
                    height: fc.height,
                    mip_level_count: 1,
                    depth_or_array_layers: 1,
                    sample_count: 1,
                    format,
                    usage: readable_target_usage(),
                },
                msaa: if fc.msaa_samples > 1 {
                    Some(
                        TextureDesc {
                            width: fc.width,
                            height: fc.height,
                            mip_level_count: 1,
                            depth_or_array_layers: 1,
                            sample_count: fc.msaa_samples,
                            format,
                            usage: USAGE_RENDER_ATTACHMENT | USAGE_TEXTURE_BINDING,
                        },
                    )
                } else {
                    None
                },
            },
        )
    } else {
        None
    }
}

fn mrt_targets(fc: &FrameConfig, format: TextureFormat, needed: bool) -> (r: Option<MrtTargets>)
    ensures
        r == spec_mrt(*fc, format, needed),
{
    if !needed {
        return None;
    }
    let single = TextureDesc::new_2d(
        fc.width,
        fc.height,
        format,
        USAGE_RENDER_ATTACHMENT | USAGE_TEXTURE_BINDING | USAGE_COPY_SRC,
    );
    let msaa = if fc.msaa_samples > 1 {
        Some(
            TextureDesc::new_multisampled(
                fc.width,
                fc.height,
                fc.msaa_samples,
                format,
                USAGE_RENDER_ATTACHMENT | USAGE_TEXTURE_BINDING,
            ),
        )
    } else {
        None
    };
    Some(MrtTargets { single, msaa })
}

/// The MRT a downstream pass reads: the resolved texture with MSAA, else
/// the one drawn into; nothing when the data is not needed.
pub fn mrt_output(needed: bool, drawn: TextureNodeId, resolved: Option<TextureNodeId>) -> (r: Option<TextureNodeId>)
    ensures
        r == (if needed {
            Some(
                match resolved {
                    Some(t) => t,
                    None => drawn,
                },
            )
        } else {
            None
        }),
{
    if needed {
        Some(
            match resolved {
                Some(t) => t,
                None => drawn,
            },
        )
    } else {
        None
    }
}

/// The targets of a frame configured as `fc`: with MSAA a multisampled
/// colour and depth target, otherwise the single-sampled HDR scene colour
/// (the incoming scene depth is used); each needed MRT.
pub open spec fn spec_opaque_plan(fc: FrameConfig, needs_specular_data: bool, needs_material_data: bool) -> OpaqueTargetPlan {
    OpaqueTargetPlan {
        color: if fc.msaa_samples > 1 {
            TextureDesc {
                width: fc.width,
                height: fc.height,
                mip_level_count: 1,
                depth_or_array_layers: 1,
                sample_count: fc.msaa_samples,
                format: HDR_TEXTURE_FORMAT,
                usage: USAGE_RENDER_ATTACHMENT,
            }
        } else {
            TextureDesc {
                width: fc.width,
                height: fc.height,
                mip_level_count: 1,
                depth_or_array_layers: 1,
                sample_count: 1,
                format: HDR_TEXTURE_FORMAT,
                usage: readable_target_usage(),
            }
        },
        msaa_depth: if fc.msaa_samples > 1 {
            Some(
                TextureDesc {
                    width: fc.width,
                    height: fc.height,
                    mip_level_count: 1,
                    depth_or_array_layers: 1,
                    sample_count: fc.msaa_samples,
                    format: fc.depth_format,
                    usage: USAGE_RENDER_ATTACHMENT,
                },
            )
        } else {
            None
        },
        specular: spec_mrt(fc, HDR_TEXTURE_FORMAT, needs_specular_data),
        material: spec_mrt(fc, TextureFormat::Rgba8Unorm, needs_material_data),
    }
}

/// The versions an MRT adds to the graph: the single-sampled texture, then
/// with MSAA the multisampled one.
pub open spec fn mrt_versions(m: Option<MrtTargets>) -> Seq<TextureVersion> {
    match m {
        None => Seq::empty(),
        Some(t) => seq![TextureVersion::Created(t.single)] + match t.msaa {
            Some(d) => seq![TextureVersion::Created(d)],
            None => Seq::empty(),
        },
    }
}

/// The versions the opaque pass adds, in declaration order: the colour
/// target, the multisampled depth (with MSAA), the specular MRT, then the
/// material MRT.
pub open spec fn opaque_versions(p: OpaqueTargetPlan) -> Seq<TextureVersion> {
    seq![TextureVersion::Created(p.color)] + match p.msaa_depth {
        Some(d) => seq![TextureVersion::Created(d)],
        None => Seq::empty(),
    } + mrt_versions(p.specular) + mrt_versions(p.material)
}

/// The description of a created version.
pub open spec fn created_desc(v: TextureVersion) -> TextureDesc {
    match v {
        TextureVersion::Created(d) => d,
        TextureVersion::Alias(_) => arbitrary(),
    }
}

fn create_mrt(graph: &mut GraphTextures, m: Option<MrtTargets>) -> (r: Option<TextureNodeId>)
    requires
        old(graph).view().len() + 2 <= u32::MAX,
    ensures
        final(graph).view() == old(graph).view() + mrt_versions(m),
        r == (match m {
            Some(_) => Some(TextureNodeId(old(graph).view().len() as u32)),
            None => None::<TextureNodeId>,
        }),
{
    let ghost v0 = graph.view();
    match m {
        None => {
            assert(graph.view() =~= v0 + mrt_versions(m));
            None
        },
        Some(t) => {
            let single = graph.create_texture(t.single);
            match t.msaa {
                Some(d) => {
                    graph.create_texture(d);
                },
                None => {},
            }
            assert(graph.view() =~= v0 + mrt_versions(m));
            Some(single)
        },
    }
}

/// The opaque geometry pass.
#[derive(Debug, Clone, Copy, PartialEq, Eq, Structural)]
pub struct OpaqueFeature;

impl OpaqueFeature {
    pub fn new() -> (r: Self)
        ensures
            r == OpaqueFeature,
    {
        OpaqueFeature
    }

    /// The targets of a frame configured as `fc`.
    pub fn plan_targets(&self, fc: &FrameConfig, needs_specular_data: bool, needs_material_data: bool) -> (r:
        OpaqueTargetPlan)
        ensures
            r.color == (if fc.msaa_samples > 1 {
                TextureDesc {
                    width: fc.width,
                    height: fc.height,
                    mip_level_count: 1,
                    depth_or_array_layers: 1,
                    sample_count: fc.msaa_samples,
                    format: HDR_TEXTURE_FORMAT,
                    usage: USAGE_RENDER_ATTACHMENT,
                }
            } else {
                TextureDesc {
                    width: fc.width,
                    height: fc.height,
                    mip_level_count: 1,
                    depth_or_array_layers: 1,
                    sample_count: 1,
                    format: HDR_TEXTURE_FORMAT,
                    usage: readable_target_usage(),
                }
            }),
            r.msaa_depth == (if fc.msaa_samples > 1 {
                Some(
                    TextureDesc {
                        width: fc.width,
                        height: fc.height,
                        mip_level_count: 1,
                        depth_or_array_layers: 1,
                        sample_count: fc.msaa_samples,
                        format: fc.depth_format,
                        usage: USAGE_RENDER_ATTACHMENT,
                    },
                )
            } else {
                None
            }),
            r.specular == spec_mrt(*fc, HDR_TEXTURE_FORMAT, needs_specular_data),
            r.material == spec_mrt(*fc, TextureFormat::Rgba8Unorm, needs_material_data),
            r == spec_opaque_plan(*fc, needs_specular_data, needs_material_data),
    {
        let is_msaa = fc.msaa_samples > 1;
        let color = if is_msaa {
            TextureDesc::new_multisampled(fc.width, fc.height, fc.msaa_samples, HDR_TEXTURE_FORMAT, USAGE_RENDER_ATTACHMENT)
        } else {
            TextureDesc::new_2d(
                fc.width,
                fc.height,
                HDR_TEXTURE_FORMAT,
                USAGE_RENDER_ATTACHMENT | USAGE_TEXTURE_BINDING | USAGE_COPY_SRC,
            )
        };
        let msaa_depth = if is_msaa {
            Some(TextureDesc::new_multisampled(fc.width, fc.height, fc.msaa_samples, fc.depth_format, USAGE_RENDER_ATTACHMENT))
        } else {
            None
        };
        OpaqueTargetPlan {
            color,
            msaa_depth,
            specular: mrt_targets(fc, HDR_TEXTURE_FORMAT, needs_specular_data),
            material: mrt_targets(fc, TextureFormat::Rgba8Unorm, needs_material_data),
        }
    }

    /// Declares the pass's targets in `graph` and returns its outputs. The
    /// targets of `plan_targets` are created in order (colour; with MSAA the
    /// multisampled depth; each needed MRT, single-sampled first, then its
    /// multisampled twin with MSAA). The outputs are the colour target, the
    /// depth drawn into (the multisampled one with MSAA, else `scene_depth`)
    /// and each needed MRT's single-sampled texture, which with MSAA is the
    /// resolve target.
    pub fn add_to_graph(
        &self,
        graph: &mut GraphTextures,
        fc: &FrameConfig,
        scene_depth: TextureNodeId,
        needs_specular_data: bool,
        needs_material_data: bool,
    ) -> (r: OpaqueOutputs)
        requires
            old(graph).view().len() + 6 <= u32::MAX,
        ensures
            final(graph).view() == old(graph).view() + opaque_versions(
                spec_opaque_plan(*fc, needs_specular_data, needs_material_data),
            ),
            r.active_color.0 == old(graph).view().len(),
            final(graph).view()[r.active_color.0 as int] == TextureVersion::Created(
                spec_opaque_plan(*fc, needs_specular_data, needs_material_data).color,
            ),
            fc.msaa_samples > 1 ==> {
                &&& r.active_depth.0 == old(graph).view().len() + 1
                &&& final(graph).view()[r.active_depth.0 as int] == TextureVersion::Created(
                    spec_opaque_plan(*fc, needs_specular_data, needs_material_data).msaa_depth.unwrap(),
                )
                &&& created_desc(final(graph).view()[r.active_color.0 as int]).sample_count == fc.msaa_samples
                &&& created_desc(final(graph).view()[r.active_depth.0 as int]).sample_count == fc.msaa_samples
            },
            fc.msaa_samples <= 1 ==> r.active_depth == scene_depth,
            r.specular_mrt is Some == needs_specular_data,
            r.material_mrt is Some == needs_material_data,
            r.specular_mrt matches Some(t) ==> {
                &&& old(graph).view().len() < t.0 < final(graph).view().len()
                &&& final(graph).view()[t.0 as int] == TextureVersion::Created(
                    spec_mrt(*fc, HDR_TEXTURE_FORMAT, true).unwrap().single,
                )
                &&& created_desc(final(graph).view()[t.0 as int]).sample_count == 1
            },
            r.material_mrt matches Some(t) ==> {
                &&& old(graph).view().len() < t.0 < final(graph).view().len()
                &&& final(graph).view()[t.0 as int] == TextureVersion::Created(
                    spec_mrt(*fc, TextureFormat::Rgba8Unorm, true).unwrap().single,
                )
                &&& created_desc(final(graph).view()[t.0 as int]).sample_count == 1
            },
    {
        let plan = self.plan_targets(fc, needs_specular_data, needs_material_data);
        let ghost v0 = graph.view();
        let color = graph.create_texture(plan.color);
        let depth = match plan.msaa_depth {
            Some(d) => graph.create_texture(d),
            None => scene_depth,
        };
        let ghost v1 = graph.view();
        let specular = create_mrt(graph, plan.specular);
        let ghost v2 = graph.view();
        let material = create_mrt(graph, plan.material);
        proof {
            let p = spec_opaque_plan(*fc, needs_specular_data, needs_material_data);
            assert(v1 =~= v0 + (seq![TextureVersion::Created(p.color)] + match p.msaa_depth {
                Some(d) => seq![TextureVersion::Created(d)],
                None => Seq::empty(),
            }));
            assert(graph.view() =~= v0 + opaque_versions(p));
            if let Some(t) = specular {
                assert(graph.view()[t.0 as int] == v2[t.0 as int]);
                assert(v2[t.0 as int] == mrt_versions(p.specular)[0]);
            }
            if let Some(t) = material {
                assert(graph.view()[t.0 as int] == mrt_versions(p.material)[0]);
            }
        }
        OpaqueOutputs { active_color: color, active_depth: depth, specular_mrt: specular, material_mrt: material }
    }

    /// The outputs for the targets created: the colour and depth drawn into,
    /// and each needed MRT as downstream passes read it.
    pub fn wire_outputs(
        &self,
        color: TextureNodeId,
        depth: TextureNodeId,
        needs_specular_data: bool,
        specular: TextureNodeId,
        specular_resolved: Option<TextureNodeId>,
        needs_material_data: bool,
        material: TextureNodeId,
        material_resolved: Option<TextureNodeId>,
    ) -> (r: OpaqueOutputs)
        ensures
            r.active_color == color,
            r.active_depth == depth,
            r.specular_mrt == (if needs_specular_data {
                Some(
                    match specular_resolved {
                        Some(t) => t,
                        None => specular,
                    },
                )
            } else {
                None
            }),
            r.material_mrt == (if needs_material_data {
                Some(
                    match material_resolved {
                        Some(t) => t,
                        None => material,
                    },
                )
            } else {
                None
            }),
    {
        OpaqueOutputs {
            active_color: color,
            active_depth: depth,
            specular_mrt: mrt_output(needs_specular_data, specular, specular_resolved),
            material_mrt: mrt_output(needs_material_data, material, material_resolved),
        }
    }
}

/// The colour attachments bound, in order: the scene colour, then each
/// needed MRT that is still live in the graph (one with no reader was
/// culled and is left out).
pub fn color_attachment_order(
    needs_specular_data: bool,
    specular_live: bool,
    needs_material_data: bool,
    material_live: bool,
) -> (r: Vec<OpaqueAttachment>)
    ensures
        r@ == seq![OpaqueAttachment::Color] + (if needs_specular_data && specular_live {
            seq![OpaqueAttachment::Specular]
        } else {
            Seq::empty()
        }) + (if needs_material_data && material_live {
            seq![OpaqueAttachment::Material]
        } else {
            Seq::empty()
        }),
{
    let mut r: Vec<OpaqueAttachment> = Vec::new();
    r.push(OpaqueAttachment::Color);
    if needs_specular_data && specular_live {
        r.push(OpaqueAttachment::Specular);
    }
    if needs_material_data && material_live {
        r.push(OpaqueAttachment::Material);
    }
    proof {
        assert(r@ =~= seq![OpaqueAttachment::Color] + (if needs_specular_data && specular_live {
            seq![OpaqueAttachment::Specular]
        } else {
            Seq::empty()
        }) + (if needs_material_data && material_live {
            seq![OpaqueAttachment::Material]
        } else {
            Seq::empty()
        }));
    }
    r
}

} // verus!
