use vstd::prelude::*;

verus! {

/// The texture formats the renderer reasons about.
///
/// The formats that the render passes name explicitly have their own
/// variants; any other surface format (chosen by the platform swap chain) is
/// carried as `Other` with an identifier assigned by the embedding layer.
#[derive(Debug, Clone, Copy, PartialEq, Eq, Structural, Hash)]
pub enum TextureFormat {
    Rgba16Float,
    Rgba8Unorm,
    Bgra8UnormSrgb,
    R32Float,
    R8Unorm,
    Depth32Float,
    Other(u32),
}

impl TextureFormat {
    /// One-byte tag of the format (`Other` formats share one tag).
    pub open spec fn spec_tag(&self) -> u8 {
        match self {
            TextureFormat::Rgba16Float => 0,
            TextureFormat::Rgba8Unorm => 1,
            TextureFormat::Bgra8UnormSrgb => 2,
            TextureFormat::R32Float => 3,
            TextureFormat::R8Unorm => 4,
            TextureFormat::Depth32Float => 5,
            TextureFormat::Other(_) => 6,
        }
    }

    /// The identifier an `Other` format carries; 0 for the named ones.
    pub open spec fn spec_payload(&self) -> u32 {
        match self {
            TextureFormat::Other(id) => *id,
            _ => 0,
        }
    }

    /// The format's tag.
    pub fn tag(&self) -> (r: u8)
        ensures
            r == self.spec_tag(),
    {
        match self {
            TextureFormat::Rgba16Float => 0,
            TextureFormat::Rgba8Unorm => 1,
            TextureFormat::Bgra8UnormSrgb => 2,
            TextureFormat::R32Float => 3,
            TextureFormat::R8Unorm => 4,
            TextureFormat::Depth32Float => 5,
            TextureFormat::Other(_) => 6,
        }
    }

    /// The format's payload.
    pub fn payload(&self) -> (r: u32)
        ensures
            r == self.spec_payload(),
    {
        match self {
            TextureFormat::Other(id) => *id,
            _ => 0,
        }
    }
}

/// The dimension of a texture view, as the passes distinguish it.
#[derive(Debug, Clone, Copy, PartialEq, Eq, Structural, Hash)]
pub enum ViewDimension {
    D1,
    D2,
    D2Array,
    Cube,
    CubeArray,
    D3,
}

/// HDR texture format used for high dynamic range render targets.
pub const HDR_TEXTURE_FORMAT: TextureFormat = TextureFormat::Rgba16Float;

} // verus!
