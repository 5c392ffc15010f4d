//! Render-graph resource handles and transient texture descriptions.
use vstd::prelude::*;

use crate::format::TextureFormat;

verus! {

/// Handle of a texture version inside one frame's render graph.
#[derive(Debug, Clone, Copy, PartialEq, Eq, Structural, Hash)]
pub struct TextureNodeId(pub u32);

/// Handle of a buffer version inside one frame's render graph.
#[derive(Debug, Clone, Copy, PartialEq, Eq, Structural, Hash)]
pub struct BufferNodeId(pub u32);

impl TextureNodeId {
    /// The handle with the given graph index.
    pub fn from_index(index: u32) -> (r: Self)
        ensures
            r.0 == index,
    {
        TextureNodeId(index)
    }
}

/// Texture usage bits, as the GPU API numbers them.
pub const USAGE_COPY_SRC: u32 = 1;
pub const USAGE_COPY_DST: u32 = 2;
pub const USAGE_TEXTURE_BINDING: u32 = 4;
pub const USAGE_STORAGE_BINDING: u32 = 8;
pub const USAGE_RENDER_ATTACHMENT: u32 = 16;

/// Description of a transient texture a pass creates.
#[derive(Debug, Clone, Copy, PartialEq, Eq, Structural)]
pub struct TextureDesc {
    pub width: u32,
    pub height: u32,
    pub mip_level_count: u32,
    pub depth_or_array_layers: u32,
    pub sample_count: u32,
    pub format: TextureFormat,
    pub usage: u32,
}

impl TextureDesc {
    /// A single-sampled 2D texture with one mip level and one layer.
    pub fn new_2d(width: u32, height: u32, format: TextureFormat, usage: u32) -> (r: Self)
        ensures
            r == (TextureDesc {
                width,
                height,
                mip_level_count: 1,
                depth_or_array_layers: 1,
                sample_count: 1,
                format,
                usage,
            }),
    {
        TextureDesc { width, height, mip_level_count: 1, depth_or_array_layers: 1, sample_count: 1, format, usage }
    }

    /// A 2D texture with `sample_count` samples, one mip level and one layer.
    pub fn new_multisampled(width: u32, height: u32, sample_count: u32, format: TextureFormat, usage: u32) -> (r: Self)
        ensures
            r == (TextureDesc {
                width,
                height,
                mip_level_count: 1,
                depth_or_array_layers: 1,
                sample_count,
                format,
                usage,
            }),
    {
        TextureDesc { width, height, mip_level_count: 1, depth_or_array_layers: 1, sample_count, format, usage }
    }
}

/// The frame's render-target configuration.
#[derive(Debug, Clone, Copy, PartialEq, Eq, Structural)]
pub struct FrameConfig {
    pub width: u32,
    pub height: u32,
    pub msaa_samples: u32,
    pub depth_format: TextureFormat,
    pub surface_format: TextureFormat,
    pub hdr_format: TextureFormat,
}

impl FrameConfig {
    /// A single-sampled render target of the frame's size in its HDR
    /// format, usable as a render attachment and as `usage` adds.
    pub fn create_render_target_desc(&self, usage: u32) -> (r: TextureDesc)
        ensures
            r == (TextureDesc {
                width: self.width,
                height: self.height,
                mip_level_count: 1,
                depth_or_array_layers: 1,
                sample_count: 1,
                format: self.hdr_format,
                usage: USAGE_RENDER_ATTACHMENT | usage,
            }),
    {
        TextureDesc::new_2d(self.width, self.height, self.hdr_format, USAGE_RENDER_ATTACHMENT | usage)
    }
}

/// What a texture version of the graph is.
#[derive(Debug, Clone, Copy, PartialEq, Eq, Structural)]
pub enum TextureVersion {
    /// A texture a pass creates, with its description.
    Created(TextureDesc),
    /// A new version of an existing texture, written by a pass: the same
    /// physical texture under a fresh id.
    Alias(TextureNodeId),
}

/// The texture versions declared in one frame's render graph, in
/// declaration order; a version's id is its position.
pub struct GraphTextures {
    versions: Vec<TextureVersion>,
}

impl GraphTextures {
    pub closed spec fn view(&self) -> Seq<TextureVersion> {
        self.versions@
    }

    /// An empty graph.
    pub fn new() -> (r: Self)
        ensures
            r.view() == Seq::<TextureVersion>::empty(),
    {
        GraphTextures { versions: Vec::new() }
    }

    /// Number of versions declared.
    pub fn len(&self) -> (r: usize)
        ensures
            r == self.view().len(),
    {
        self.versions.len()
    }

    /// The version with id `id`, if declared.
    pub fn version(&self, id: TextureNodeId) -> (r: Option<TextureVersion>)
        ensures
            r == (if id.0 < self.view().len() {
                Some(self.view()[id.0 as int])
            } else {
                None
            }),
    {
        if (id.0 as usize) < self.versions.len() {
            Some(self.versions[id.0 as usize])
        } else {
            None
        }
    }

    /// Declares a new texture; its id is the next free one.
    pub fn create_texture(&mut self, desc: TextureDesc) -> (id: TextureNodeId)
        requires
            old(self).view().len() < u32::MAX,
        ensures
            id.0 == old(self).view().len(),
            final(self).view() == old(self).view().push(TextureVersion::Created(desc)),
    {
        let id = TextureNodeId(self.versions.len() as u32);
        self.versions.push(TextureVersion::Created(desc));
        id
    }

    /// Declares a write to `target`: a new version of it under the next
    /// free id.
    pub fn mutate_texture(&mut self, target: TextureNodeId) -> (id: TextureNodeId)
        requires
            target.0 < old(self).view().len(),
            old(self).view().len() < u32::MAX,
        ensures
            id.0 == old(self).view().len(),
            final(self).view() == old(self).view().push(TextureVersion::Alias(target)),
    {
        let id = TextureNodeId(self.versions.len() as u32);
        self.versions.push(TextureVersion::Alias(target));
        id
    }
}

} // verus!
