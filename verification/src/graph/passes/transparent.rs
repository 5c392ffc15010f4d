//! Transparent geometry pass: blending onto the scene colour, resolving it
//! when MSAA is on.
use vstd::prelude::*;

use crate::graph::node::{
    FrameConfig, GraphTextures, TextureDesc, TextureNodeId, TextureVersion, USAGE_COPY_SRC, USAGE_RENDER_ATTACHMENT,
    USAGE_TEXTURE_BINDING,
};

verus! {

/// The transparent geometry pass.
#[derive(Debug, Clone, Copy, PartialEq, Eq, Structural)]
pub struct TransparentFeature;

impl TransparentFeature {
    pub fn new() -> (r: Self)
        ensures
            r == TransparentFeature,
    {
        TransparentFeature
    }

    /// With MSAA the pass resolves into a fresh single-sampled target.
    pub fn needs_resolve(&self, fc: &FrameConfig) -> (r: bool)
        ensures
            r == (fc.msaa_samples > 1),
    {
        fc.msaa_samples > 1
    }

    /// The colour downstream passes read: the resolve target when there is
    /// one, else the blended colour.
    pub fn result(&self, color_output: TextureNodeId, resolve_target: Option<TextureNodeId>) -> (r: TextureNodeId)
        ensures
            r == (match resolve_target {
                Some(t) => t,
                None => color_output,
            }),
    {
        match resolve_target {
            Some(t) => t,
            None => color_output,
        }
    }

    /// Declares the pass's targets in `graph` and returns the colour
    /// downstream passes read. The pass writes `color_target`, declaring a
    /// new version of it; with MSAA it also creates a single-sampled resolve
    /// target of the frame's size in its HDR format, and that target is the
    /// result; without MSAA the result is the new version of `color_target`.
    pub fn add_to_graph(&self, graph: &mut GraphTextures, fc: &FrameConfig, color_target: TextureNodeId) -> (r:
        TextureNodeId)
        requires
            color_target.0 < old(graph).view().len(),
            old(graph).view().len() + 2 <= u32::MAX,
        ensures
            r != color_target,
            fc.msaa_samples > 1 ==> {
                &&& final(graph).view() == old(graph).view().push(TextureVersion::Alias(color_target)).push(
                    TextureVersion::Created(
                        TextureDesc {
                            width: fc.width,
                            height: fc.height,
                            mip_level_count: 1,
                            depth_or_array_layers: 1,
                            sample_count: 1,
                            format: fc.hdr_format,
                            usage: USAGE_RENDER_ATTACHMENT | (USAGE_TEXTURE_BINDING | USAGE_COPY_SRC),
                        },
                    ),
                )
                &&& r.0 == old(graph).view().len() + 1
            },
            fc.msaa_samples <= 1 ==> {
                &&& final(graph).view() == old(graph).view().push(TextureVersion::Alias(color_target))
                &&& r.0 == old(graph).view().len()
                &&& final(graph).view()[r.0 as int] == TextureVersion::Alias(color_target)
            },
    {
        let color_output = graph.mutate_texture(color_target);
        let resolve_target = if self.needs_resolve(fc) {
            let desc = fc.create_render_target_desc(USAGE_TEXTURE_BINDING | USAGE_COPY_SRC);
            Some(graph.create_texture(desc))
        } else {
            None
        };
        self.result(color_output, resolve_target)
    }

    /// The screen bind group and draws are issued only for a non-empty list.
    pub fn draws(&self, transparent_count: usize) -> (r: bool)
        ensures
            r == (transparent_count > 0),
    {
        transparent_count > 0
    }
}

} // verus!
