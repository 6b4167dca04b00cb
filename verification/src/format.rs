//! Pixel and vertex element formats. A format pairs the memory layout of a
//! surface with the interpretation of its channels; the PSO core stores
//! these values in attribute and target descriptors without interpreting
//! them further.

use vstd::prelude::*;

verus! {

/// Memory layout of one element: the channels it holds and their widths,
/// in bits.
#[derive(Clone, Copy, Debug, PartialEq, Eq, Hash)]
pub enum SurfaceType {
    /// One 8-bit channel.
    R8,
    /// Two 8-bit channels.
    R8_G8,
    /// Four 8-bit channels.
    R8_G8_B8_A8,
    /// Three 10-bit channels and one 2-bit channel.
    R10_G10_B10_A2,
    /// Two 11-bit channels and one 10-bit channel.
    R11_G11_B10,
    /// One 16-bit channel.
    R16,
    /// Two 16-bit channels.
    R16_G16,
    /// Three 16-bit channels.
    R16_G16_B16,
    /// Four 16-bit channels.
    R16_G16_B16_A16,
    /// One 32-bit channel.
    R32,
    /// Two 32-bit channels.
    R32_G32,
    /// Three 32-bit channels.
    R32_G32_B32,
    /// Four 32-bit channels.
    R32_G32_B32_A32,
    /// One 16-bit depth channel.
    D16,
    /// One 24-bit depth channel beside an 8-bit stencil channel.
    D24_S8,
    /// One 32-bit depth channel.
    D32,
}

/// Interpretation of the bits of a channel.
#[derive(Clone, Copy, Debug, PartialEq, Eq, Hash)]
pub enum ChannelType {
    /// Signed integer.
    Int,
    /// Unsigned integer.
    Uint,
    /// Signed normalized, mapped to the floating range [-1, 1].
    Inorm,
    /// Unsigned normalized, mapped to the floating range [0, 1].
    Unorm,
    /// Floating point.
    Float,
    /// Unsigned normalized with sRGB gamma applied to the color channels.
    Srgb,
}

/// Complete run-time format of an element: a surface layout paired with a
/// channel interpretation.
#[derive(Clone, Copy, Debug, PartialEq, Eq, Hash)]
pub struct Format(pub SurfaceType, pub ChannelType);

} // verus!
