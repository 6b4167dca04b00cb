//! Declarative description of a GPU pipeline's binding surface (a pipeline
//! state object, PSO), together with the transient per-draw binding sets and
//! the hazard-tracking ledger used when submitting work that touches
//! CPU-mapped buffers.
//!
//! The collaborating value modules (formats, rasterizer/blend/depth/stencil
//! state, texture dimensions, shader-stage usage, resource handles) are
//! modelled here as plain data so that every rule of the core can be stated
//! and proved over them.

use vstd::prelude::*;

mod format;
mod handle;
mod pso;
mod shade;
mod state;
mod texture;

pub use format::{ChannelType, Format, SurfaceType};
pub use handle::{RawBuffer, RawMapping};
pub use pso::{
    AccessInfo, AttributeDesc, BufferIndex, BufferOffset, ColorInfo, ColorTargetDesc,
    ConstantBufferDesc, ConstantBufferParam, CreationError, DepthStencilDesc, DepthStencilInfo,
    Descriptor, Element, ElemOffset, ElemStride, InstanceRate, PixelTargetSet, ResourceViewDesc,
    ResourceViewParam, SamplerDesc, SamplerParam, UnorderedViewDesc, UnorderedViewParam,
    VertexBufferDesc, VertexBufferSet, MAX_VERTEX_BUFFERS,
};
pub use shade::Usage;
pub use state::{
    mask_all, Blend, BlendChannel, BlendValue, ColorMask, Comparison, CullFace, Depth, Equation,
    Factor, FrontFace, LineWidth, MultiSample, Offset, OffsetSlope, OffsetUnits, RasterMethod,
    Rasterizer, Stencil, StencilOp, StencilSide,
};
pub use texture::{
    aa_max, dim_max, spec_aa_le, spec_aa_max, spec_dim_max, AaMode, Dimensions, NumFragments,
    NumSamples, Size,
};

verus! {

/// Maximum number of vertex attribute slots in a PSO definition.
pub const MAX_VERTEX_ATTRIBUTES: usize = 16;
/// Maximum number of color render-target slots in a PSO definition.
pub const MAX_COLOR_TARGETS: usize = 4;
/// Maximum number of constant buffer slots in a PSO definition.
pub const MAX_CONSTANT_BUFFERS: usize = 14;
/// Maximum number of shader resource view slots in a PSO definition.
pub const MAX_RESOURCE_VIEWS: usize = 128;
/// Maximum number of unordered access view slots in a PSO definition.
pub const MAX_UNORDERED_VIEWS: usize = 4;
/// Maximum number of sampler slots in a PSO definition.
pub const MAX_SAMPLERS: usize = 16;

/// Slot for vertex attributes.
pub type AttributeSlot = u8;
/// Slot for color render targets.
pub type ColorSlot = u8;
/// Slot for constant buffers.
pub type ConstantBufferSlot = u8;
/// Slot for shader resource views.
pub type ResourceViewSlot = u8;
/// Slot for unordered access views.
pub type UnorderedViewSlot = u8;
/// Slot for samplers.
pub type SamplerSlot = u8;

/// Number of control points in a tessellation patch.
pub type PatchSize = u8;

/// Describes what geometric primitives are created from vertex data.
#[derive(Clone, Copy, Debug, PartialEq, Eq, Hash)]
pub enum Primitive {
    /// Each vertex represents a single point.
    PointList,
    /// Each pair of vertices represents a single line segment.
    LineList,
    /// Every two consecutive vertices represent a single line segment.
    LineStrip,
    /// Each triplet of vertices represents a single triangle.
    TriangleList,
    /// Every three consecutive vertices represent a single triangle.
    TriangleStrip,
    /// Patch list with the given number of control points per patch.
    PatchList(PatchSize),
}

/// Capability set of a backend: the concrete handle types that the binding
/// structures of this crate are polymorphic over. A backend instantiates
/// every associated type with its own plain handle values; the core never
/// assumes a concrete backend.
pub trait Resources: Sized {
    /// Handle to a GPU buffer.
    type Buffer: Copy;
    /// Handle to a shader resource view (SRV).
    type ShaderResourceView: Copy;
    /// Handle to an unordered access view (UAV).
    type UnorderedAccessView: Copy;
    /// Handle to a render target view (RTV).
    type RenderTargetView: Copy;
    /// Handle to a depth-stencil view (DSV).
    type DepthStencilView: Copy;
    /// Handle to a sampler.
    type Sampler: Copy;
    /// Handle to a CPU-visible mapping of a buffer.
    type Mapping: Copy;
}

} // verus!
