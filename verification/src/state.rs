//! Fixed-function pipeline state values: rasterizer setup, blending,
//! depth testing and stencil testing. These are plain configuration values
//! consumed by the PSO descriptor; they carry no logic of their own.

use vstd::prelude::*;

verus! {

/// Width of a rasterized line, in eighths of a pixel.
pub type LineWidth = u8;
/// Slope-scaled factor of a depth offset, in eighths of a unit.
pub type OffsetSlope = u8;
/// Constant factor of a depth offset, in units.
pub type OffsetUnits = u16;

/// Comparison function used for depth and stencil tests.
#[derive(Clone, Copy, Debug, PartialEq, Eq, Hash)]
pub enum Comparison {
    /// The test never passes.
    Never,
    /// The test passes if the incoming value is strictly smaller.
    Less,
    /// The test passes if the incoming value is smaller or equal.
    LessEqual,
    /// The test passes if the two values are equal.
    Equal,
    /// The test passes if the incoming value is greater or equal.
    GreaterEqual,
    /// The test passes if the incoming value is strictly greater.
    Greater,
    /// The test passes if the two values differ.
    NotEqual,
    /// The test always passes.
    Always,
}

/// Which face of a polygon, by winding order, is considered the front.
#[derive(Clone, Copy, Debug, PartialEq, Eq, Hash)]
pub enum FrontFace {
    /// Clockwise winding order.
    Clockwise,
    /// Counter-clockwise winding order.
    CounterClockwise,
}

/// Which faces, if any, are culled before rasterization.
#[derive(Clone, Copy, Debug, PartialEq, Eq, Hash)]
pub enum CullFace {
    /// No culling.
    Nothing,
    /// Cull front faces.
    Front,
    /// Cull back faces.
    Back,
}

/// How polygons are rasterized.
#[derive(Clone, Copy, Debug, PartialEq, Eq, Hash)]
pub enum RasterMethod {
    /// Rasterize each vertex as a point.
    Point,
    /// Rasterize edges as lines of the given width.
    Line(LineWidth),
    /// Rasterize filled interiors.
    Fill,
}

/// Depth offset applied to rasterized fragments, scaled by the polygon slope
/// plus a constant number of units.
#[derive(Clone, Copy, Debug, PartialEq, Eq, Hash)]
pub struct Offset(pub OffsetSlope, pub OffsetUnits);

/// Multi-sampling marker for the rasterizer.
#[derive(Clone, Copy, Debug, PartialEq, Eq, Hash)]
pub struct MultiSample;

/// Complete rasterizer setup of a pipeline.
#[derive(Clone, Copy, Debug, PartialEq, Eq, Hash)]
pub struct Rasterizer {
    /// Winding order that marks a polygon's front face.
    pub front_face: FrontFace,
    /// Which faces are culled.
    pub cull_face: CullFace,
    /// How polygons are rasterized.
    pub method: RasterMethod,
    /// Optional depth offset.
    pub offset: Option<Offset>,
    /// Optional multi-sampling.
    pub samples: Option<MultiSample>,
}

impl Rasterizer {
    /// A plain filling rasterizer with front faces wound counter-clockwise
    /// and no culling, offset or multi-sampling.
    pub fn new_fill() -> (r: Rasterizer)
        ensures
            r == (Rasterizer {
                front_face: FrontFace::CounterClockwise,
                cull_face: CullFace::Nothing,
                method: RasterMethod::Fill,
                offset: None,
                samples: None,
            }),
    {
        Rasterizer {
            front_face: FrontFace::CounterClockwise,
            cull_face: CullFace::Nothing,
            method: RasterMethod::Fill,
            offset: None,
            samples: None,
        }
    }
}

/// Per-channel write mask of a color target.
#[derive(Clone, Copy, Debug, PartialEq, Eq, Hash)]
pub struct ColorMask {
    /// Write to the red channel.
    pub red: bool,
    /// Write to the green channel.
    pub green: bool,
    /// Write to the blue channel.
    pub blue: bool,
    /// Write to the alpha channel.
    pub alpha: bool,
}

impl ColorMask {
    /// The mask that writes every channel.
    pub fn all() -> (m: ColorMask)
        ensures
            m == (ColorMask { red: true, green: true, blue: true, alpha: true }),
    {
        ColorMask { red: true, green: true, blue: true, alpha: true }
    }

    /// The mask that writes no channel.
    pub fn none() -> (m: ColorMask)
        ensures
            m == (ColorMask { red: false, green: false, blue: false, alpha: false }),
    {
        ColorMask { red: false, green: false, blue: false, alpha: false }
    }
}

/// Spec-level value of the all-channels write mask.
pub open spec fn mask_all() -> ColorMask {
    ColorMask { red: true, green: true, blue: true, alpha: true }
}

/// Source of a blending factor.
#[derive(Clone, Copy, Debug, PartialEq, Eq, Hash)]
pub enum BlendValue {
    /// The color of the incoming fragment.
    SourceColor,
    /// The alpha of the incoming fragment.
    SourceAlpha,
    /// The color already in the target.
    DestColor,
    /// The alpha already in the target.
    DestAlpha,
    /// The constant blend color.
    ConstColor,
    /// The constant blend alpha.
    ConstAlpha,
}

/// Multiplication factor applied to a blend operand.
#[derive(Clone, Copy, Debug, PartialEq, Eq, Hash)]
pub enum Factor {
    /// Multiply by zero.
    Zero,
    /// Multiply by one.
    One,
    /// Multiply by the saturated source alpha.
    SourceAlphaSaturated,
    /// Multiply by the given value.
    ZeroPlus(BlendValue),
    /// Multiply by one minus the given value.
    OnePlus(BlendValue),
}

/// Arithmetic equation combining the two scaled blend operands.
#[derive(Clone, Copy, Debug, PartialEq, Eq, Hash)]
pub enum Equation {
    /// Add the operands.
    Add,
    /// Subtract the destination from the source.
    Sub,
    /// Subtract the source from the destination.
    RevSub,
    /// Take the minimum of the operands.
    Min,
    /// Take the maximum of the operands.
    Max,
}

/// Blending configuration of one channel group (color or alpha).
#[derive(Clone, Copy, Debug, PartialEq, Eq, Hash)]
pub struct BlendChannel {
    /// Equation combining the scaled operands.
    pub equation: Equation,
    /// Factor applied to the incoming fragment.
    pub source: Factor,
    /// Factor applied to the value already in the target.
    pub destination: Factor,
}

/// Full blending configuration of a color target: one channel group for
/// color, one for alpha.
#[derive(Clone, Copy, Debug, PartialEq, Eq, Hash)]
pub struct Blend {
    /// Blending of the color channels.
    pub color: BlendChannel,
    /// Blending of the alpha channel.
    pub alpha: BlendChannel,
}

/// Depth test configuration.
#[derive(Clone, Copy, Debug, PartialEq, Eq, Hash)]
pub struct Depth {
    /// Comparison applied between the incoming and the stored depth.
    pub fun: Comparison,
    /// Whether a passing fragment writes its depth.
    pub write: bool,
}

/// Stencil operation applied to the stored stencil value.
#[derive(Clone, Copy, Debug, PartialEq, Eq, Hash)]
pub enum StencilOp {
    /// Keep the stored value.
    Keep,
    /// Set the stored value to zero.
    Zero,
    /// Replace the stored value with the reference value.
    Replace,
    /// Increment the stored value, clamping at the maximum.
    IncrementClamp,
    /// Increment the stored value, wrapping to zero.
    IncrementWrap,
    /// Decrement the stored value, clamping at zero.
    DecrementClamp,
    /// Decrement the stored value, wrapping to the maximum.
    DecrementWrap,
    /// Bitwise-invert the stored value.
    Invert,
}

/// Stencil test configuration of one polygon side.
#[derive(Clone, Copy, Debug, PartialEq, Eq, Hash)]
pub struct StencilSide {
    /// Comparison applied between the reference and the stored value.
    pub fun: Comparison,
    /// Mask applied to both values before the comparison.
    pub mask_read: u8,
    /// Mask applied when writing the stored value.
    pub mask_write: u8,
    /// Operation when the stencil test fails.
    pub op_fail: StencilOp,
    /// Operation when the stencil test passes but the depth test fails.
    pub op_depth_fail: StencilOp,
    /// Operation when both tests pass.
    pub op_pass: StencilOp,
}

/// Stencil test configuration of both polygon sides.
#[derive(Clone, Copy, Debug, PartialEq, Eq, Hash)]
pub struct Stencil {
    /// Configuration of front faces.
    pub front: StencilSide,
    /// Configuration of back faces.
    pub back: StencilSide,
}

} // verus!
