//! The basic forward path: one pass drawing opaque geometry, the skybox and
//! transparent geometry straight to the surface.
use vstd::prelude::*;

use crate::graph::node::{FrameConfig, TextureDesc, TextureNodeId, USAGE_RENDER_ATTACHMENT, USAGE_TEXTURE_BINDING};

verus! {

/// The draws of the pass, in order.
#[derive(Debug, Clone, Copy, PartialEq, Eq, Structural)]
pub enum ForwardStep {
    Opaque,
    Skybox,
    /// The skybox changed groups 0 and 3; they are bound again.
    RestoreBindings,
    Transparent,
}

/// The single forward pass.
#[derive(Debug, Clone, Copy, PartialEq, Eq, Structural)]
pub struct SimpleForwardFeature;

impl SimpleForwardFeature {
    pub fn new() -> (r: Self)
        ensures
            r == SimpleForwardFeature,
    {
        SimpleForwardFeature
    }

    /// The depth target: full resolution, as many samples as the colour.
    pub fn depth_desc(&self, fc: &FrameConfig) -> (r: TextureDesc)
        ensures
            r == (TextureDesc {
                width: fc.width,
                height: fc.height,
                mip_level_count: 1,
                depth_or_array_layers: 1,
                sample_count: fc.msaa_samples,
                format: fc.depth_format,
                usage: USAGE_RENDER_ATTACHMENT | USAGE_TEXTURE_BINDING,
            }),
    {
        TextureDesc::new_multisampled(
            fc.width,
            fc.height,
            fc.msaa_samples,
            fc.depth_format,
            USAGE_RENDER_ATTACHMENT | USAGE_TEXTURE_BINDING,
        )
    }

    /// With MSAA, the multisampled colour target resolved into the surface.
    pub fn msaa_desc(&self, fc: &FrameConfig) -> (r: Option<TextureDesc>)
        ensures
            r == (if fc.msaa_samples > 1 {
                Some(
                    TextureDesc {
                        width: fc.width,
                        height: fc.height,
                        mip_level_count: 1,
                        depth_or_array_layers: 1,
                        sample_count: fc.msaa_samples,
                        format: fc.surface_format,
                        usage: USAGE_RENDER_ATTACHMENT | USAGE_TEXTURE_BINDING,
                    },
                )
            } else {
                None
            }),
    {
        if fc.msaa_samples > 1 {
            Some(
                TextureDesc::new_multisampled(
                    fc.width,
                    fc.height,
                    fc.msaa_samples,
                    fc.surface_format,
                    USAGE_RENDER_ATTACHMENT | USAGE_TEXTURE_BINDING,
                ),
            )
        } else {
            None
        }
    }

    /// The colour attachment and its resolve target: the multisampled target
    /// resolved into the surface, or the surface itself.
    pub fn color_target(&self, surface_out: TextureNodeId, msaa_view: Option<TextureNodeId>) -> (r: (
        TextureNodeId,
        Option<TextureNodeId>,
    ))
        ensures
            r == (match msaa_view {
                Some(m) => (m, Some(surface_out)),
                None => (surface_out, None),
            }),
    {
        match msaa_view {
            Some(m) => (m, Some(surface_out)),
            None => (surface_out, None),
        }
    }

    /// The draws in order: opaque, then the skybox (rebinding the groups it
    /// replaced) when one is prepared, then transparent.
    pub fn draw_sequence(&self, has_skybox: bool) -> (r: Vec<ForwardStep>)
        ensures
            r@ == (if has_skybox {
                seq![ForwardStep::Opaque, ForwardStep::Skybox, ForwardStep::RestoreBindings, ForwardStep::Transparent]
            } else {
                seq![ForwardStep::Opaque, ForwardStep::Transparent]
            }),
    {
        let mut r: Vec<ForwardStep> = Vec::new();
        r.push(ForwardStep::Opaque);
        if has_skybox {
            r.push(ForwardStep::Skybox);
            r.push(ForwardStep::RestoreBindings);
        }
        r.push(ForwardStep::Transparent);
        proof {
            if has_skybox {
                assert(r@ =~= seq![ForwardStep::Opaque, ForwardStep::Skybox, ForwardStep::RestoreBindings, ForwardStep::Transparent]);
            } else {
                assert(r@ =~= seq![ForwardStep::Opaque, ForwardStep::Transparent]);
            }
        }
        r
    }
}

} // verus!
