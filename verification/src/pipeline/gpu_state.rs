//! Plain models of the fixed-function pipeline states that pipeline keys
//! mirror: blending, comparison, stencil operations and primitive assembly.
//!
//! Each state has a one-byte code (the discriminant the GPU API gives it),
//! which is what a key's hash input records.
use vstd::prelude::*;

verus! {

/// Multiplier of a blend equation term.
#[derive(Debug, Clone, Copy, PartialEq, Eq, Structural, Hash)]
pub enum BlendFactor {
    Zero,
    One,
    Src,
    OneMinusSrc,
    SrcAlpha,
    OneMinusSrcAlpha,
    Dst,
    OneMinusDst,
    DstAlpha,
    OneMinusDstAlpha,
    SrcAlphaSaturated,
    Constant,
    OneMinusConstant,
    Src1,
    OneMinusSrc1,
    Src1Alpha,
    OneMinusSrc1Alpha,
}

impl BlendFactor {
    pub open spec fn spec_code(&self) -> u8 {
        match self {
            BlendFactor::Zero => 0,
            BlendFactor::One => 1,
            BlendFactor::Src => 2,
            BlendFactor::OneMinusSrc => 3,
            BlendFactor::SrcAlpha => 4,
            BlendFactor::OneMinusSrcAlpha => 5,
            BlendFactor::Dst => 6,
            BlendFactor::OneMinusDst => 7,
            BlendFactor::DstAlpha => 8,
            BlendFactor::OneMinusDstAlpha => 9,
            BlendFactor::SrcAlphaSaturated => 10,
            BlendFactor::Constant => 11,
            BlendFactor::OneMinusConstant => 12,
            BlendFactor::Src1 => 13,
            BlendFactor::OneMinusSrc1 => 14,
            BlendFactor::Src1Alpha => 15,
            BlendFactor::OneMinusSrc1Alpha => 16,
        }
    }

    /// The factor's code.
    pub fn code(&self) -> (r: u8)
        ensures
            r == self.spec_code(),
    {
        match self {
            BlendFactor::Zero => 0,
            BlendFactor::One => 1,
            BlendFactor::Src => 2,
            BlendFactor::OneMinusSrc => 3,
            BlendFactor::SrcAlpha => 4,
            BlendFactor::OneMinusSrcAlpha => 5,
            BlendFactor::Dst => 6,
            BlendFactor::OneMinusDst => 7,
            BlendFactor::DstAlpha => 8,
            BlendFactor::OneMinusDstAlpha => 9,
            BlendFactor::SrcAlphaSaturated => 10,
            BlendFactor::Constant => 11,
            BlendFactor::OneMinusConstant => 12,
            BlendFactor::Src1 => 13,
            BlendFactor::OneMinusSrc1 => 14,
            BlendFactor::Src1Alpha => 15,
            BlendFactor::OneMinusSrc1Alpha => 16,
        }
    }
}

/// How the two blend terms are combined.
#[derive(Debug, Clone, Copy, PartialEq, Eq, Structural, Hash)]
pub enum BlendOperation {
    Add,
    Subtract,
    ReverseSubtract,
    Min,
    Max,
}

impl BlendOperation {
    pub open spec fn spec_code(&self) -> u8 {
        match self {
            BlendOperation::Add => 0,
            BlendOperation::Subtract => 1,
            BlendOperation::ReverseSubtract => 2,
            BlendOperation::Min => 3,
            BlendOperation::Max => 4,
        }
    }

    /// The operation's code.
    pub fn code(&self) -> (r: u8)
        ensures
            r == self.spec_code(),
    {
        match self {
            BlendOperation::Add => 0,
            BlendOperation::Subtract => 1,
            BlendOperation::ReverseSubtract => 2,
            BlendOperation::Min => 3,
            BlendOperation::Max => 4,
        }
    }
}

/// Depth and stencil comparison.
#[derive(Debug, Clone, Copy, PartialEq, Eq, Structural, Hash)]
pub enum CompareFunction {
    Never,
    Less,
    Equal,
    LessEqual,
    Greater,
    NotEqual,
    GreaterEqual,
    Always,
}

impl CompareFunction {
    /// Codes start at 1, so that 0 can stand for "no comparison".
    pub open spec fn spec_code(&self) -> u8 {
        match self {
            CompareFunction::Never => 1,
            CompareFunction::Less => 2,
            CompareFunction::Equal => 3,
            CompareFunction::LessEqual => 4,
            CompareFunction::Greater => 5,
            CompareFunction::NotEqual => 6,
            CompareFunction::GreaterEqual => 7,
            CompareFunction::Always => 8,
        }
    }

    /// The comparison's code.
    pub fn code(&self) -> (r: u8)
        ensures
            r == self.spec_code(),
    {
        match self {
            CompareFunction::Never => 1,
            CompareFunction::Less => 2,
            CompareFunction::Equal => 3,
            CompareFunction::LessEqual => 4,
            CompareFunction::Greater => 5,
            CompareFunction::NotEqual => 6,
            CompareFunction::GreaterEqual => 7,
            CompareFunction::Always => 8,
        }
    }
}

/// What a stencil test does to the stored value.
#[derive(Debug, Clone, Copy, PartialEq, Eq, Structural, Hash)]
pub enum StencilOperation {
    Keep,
    Zero,
    Replace,
    Invert,
    IncrementClamp,
    DecrementClamp,
    IncrementWrap,
    DecrementWrap,
}

impl StencilOperation {
    pub open spec fn spec_code(&self) -> u8 {
        match self {
            StencilOperation::Keep => 0,
            StencilOperation::Zero => 1,
            StencilOperation::Replace => 2,
            StencilOperation::Invert => 3,
            StencilOperation::IncrementClamp => 4,
            StencilOperation::DecrementClamp => 5,
            StencilOperation::IncrementWrap => 6,
            StencilOperation::DecrementWrap => 7,
        }
    }

    /// The operation's code.
    pub fn code(&self) -> (r: u8)
        ensures
            r == self.spec_code(),
    {
        match self {
            StencilOperation::Keep => 0,
            StencilOperation::Zero => 1,
            StencilOperation::Replace => 2,
            StencilOperation::Invert => 3,
            StencilOperation::IncrementClamp => 4,
            StencilOperation::DecrementClamp => 5,
            StencilOperation::IncrementWrap => 6,
            StencilOperation::DecrementWrap => 7,
        }
    }
}

/// How vertices are assembled into primitives.
#[derive(Debug, Clone, Copy, PartialEq, Eq, Structural, Hash)]
pub enum PrimitiveTopology {
    PointList,
    LineList,
    LineStrip,
    TriangleList,
    TriangleStrip,
}

impl PrimitiveTopology {
    pub open spec fn spec_code(&self) -> u8 {
        match self {
            PrimitiveTopology::PointList => 0,
            PrimitiveTopology::LineList => 1,
            PrimitiveTopology::LineStrip => 2,
            PrimitiveTopology::TriangleList => 3,
            PrimitiveTopology::TriangleStrip => 4,
        }
    }

    /// The topology's code.
    pub fn code(&self) -> (r: u8)
        ensures
            r == self.spec_code(),
    {
        match self {
            PrimitiveTopology::PointList => 0,
            PrimitiveTopology::LineList => 1,
            PrimitiveTopology::LineStrip => 2,
            PrimitiveTopology::TriangleList => 3,
            PrimitiveTopology::TriangleStrip => 4,
        }
    }
}

/// Winding order of front-facing triangles.
#[derive(Debug, Clone, Copy, PartialEq, Eq, Structural, Hash)]
pub enum FrontFace {
    Ccw,
    Cw,
}

impl FrontFace {
    pub open spec fn spec_code(&self) -> u8 {
        match self {
            FrontFace::Ccw => 0,
            FrontFace::Cw => 1,
        }
    }

    /// The winding's code.
    pub fn code(&self) -> (r: u8)
        ensures
            r == self.spec_code(),
    {
        match self {
            FrontFace::Ccw => 0,
            FrontFace::Cw => 1,
        }
    }
}

/// A triangle face, as culled.
#[derive(Debug, Clone, Copy, PartialEq, Eq, Structural, Hash)]
pub enum Face {
    Front,
    Back,
}

impl Face {
    pub open spec fn spec_code(&self) -> u8 {
        match self {
            Face::Front => 0,
            Face::Back => 1,
        }
    }

    /// The face's code.
    pub fn code(&self) -> (r: u8)
        ensures
            r == self.spec_code(),
    {
        match self {
            Face::Front => 0,
            Face::Back => 1,
        }
    }
}

/// Color write mask enabling all four channels.
pub const COLOR_WRITES_ALL: u32 = 15;

} // verus!
