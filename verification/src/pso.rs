//! Raw pipeline state objects.
//!
//! A [`Descriptor`] declares the whole binding surface of a pipeline:
//! primitive topology, rasterizer setup, and one fixed-length slot table
//! per binding kind, where an absent entry means the slot is unused. Per
//! draw call, transient binding sets pair slot indices with live resource
//! handles, and an [`AccessInfo`] ledger records which CPU-mapped buffer
//! regions the submission touches, so that the submission layer can resolve
//! hazards before issuing GPU work.
//!
//! Slot tables have fixed hardware bounds; every write through a slot index
//! checks the bound and reports failure instead of accepting an
//! out-of-range index.

use vstd::prelude::*;

use crate::format::Format;
use crate::handle::{RawBuffer, RawMapping};
use crate::shade::Usage;
use crate::state::{
    mask_all, Blend, BlendChannel, ColorMask, Depth, Rasterizer, Stencil, StencilSide,
};
use crate::texture::{dim_max, spec_dim_max, AaMode, Dimensions};
use crate::{
    AttributeSlot, ColorSlot, ConstantBufferSlot, Primitive, ResourceViewSlot, Resources,
    SamplerSlot, UnorderedViewSlot, MAX_COLOR_TARGETS, MAX_CONSTANT_BUFFERS, MAX_RESOURCE_VIEWS,
    MAX_SAMPLERS, MAX_UNORDERED_VIEWS, MAX_VERTEX_ATTRIBUTES,
};

verus! {

/// Maximum number of vertex buffers used in a PSO definition.
pub const MAX_VERTEX_BUFFERS: usize = 4;

/// An offset inside a vertex buffer, in bytes.
pub type BufferOffset = usize;

/// Index of a vertex buffer.
pub type BufferIndex = u8;
/// Offset of an attribute from the start of the buffer, in bytes.
pub type ElemOffset = u32;
/// Offset between attribute values, in bytes.
pub type ElemStride = u8;
/// The number of instances between each subsequent attribute value.
pub type InstanceRate = u8;

/// Error type happening upon PSO creation on the device side. It is a
/// stateless signal: the backend does not distinguish among causes.
#[derive(Clone, Copy, Debug, PartialEq, Eq)]
pub struct CreationError;

impl CreationError {
    /// The fixed description of this failure.
    pub fn description(&self) -> (r: &'static str)
        ensures
            r@ == "Could not create PSO on device."@,
    {
        "Could not create PSO on device."
    }
}

/// Color output configuration of one color target of the PSO.
#[derive(Clone, Copy, Debug, PartialEq, Eq, Hash)]
pub struct ColorInfo {
    /// Color channel mask.
    pub mask: ColorMask,
    /// Optional color blending.
    pub color: Option<BlendChannel>,
    /// Optional alpha blending.
    pub alpha: Option<BlendChannel>,
}

impl ColorInfo {
    /// Color output from a write mask alone: no blending on either channel
    /// group.
    pub fn from_mask(mask: ColorMask) -> (c: ColorInfo)
        ensures
            c == (ColorInfo { mask, color: None, alpha: None }),
    {
        ColorInfo { mask, color: None, alpha: None }
    }

    /// Color output from a full blend configuration: every channel is
    /// written, and both channel groups blend as the configuration says.
    pub fn from_blend(blend: Blend) -> (c: ColorInfo)
        ensures
            c == (ColorInfo {
                mask: mask_all(),
                color: Some(blend.color),
                alpha: Some(blend.alpha),
            }),
    {
        ColorInfo { mask: ColorMask::all(), color: Some(blend.color), alpha: Some(blend.alpha) }
    }
}

/// Depth and stencil state of the PSO.
#[derive(Clone, Copy, Debug, PartialEq, Eq, Hash)]
pub struct DepthStencilInfo {
    /// Optional depth test configuration.
    pub depth: Option<Depth>,
    /// Optional stencil test on the front faces.
    pub front: Option<StencilSide>,
    /// Optional stencil test on the back faces.
    pub back: Option<StencilSide>,
}

impl DepthStencilInfo {
    /// Depth-stencil state from a depth test alone: no stencil sides.
    pub fn from_depth(depth: Depth) -> (i: DepthStencilInfo)
        ensures
            i == (DepthStencilInfo { depth: Some(depth), front: None, back: None }),
    {
        DepthStencilInfo { depth: Some(depth), front: None, back: None }
    }

    /// Depth-stencil state from a stencil test alone: no depth test, both
    /// sides populated from the stencil configuration.
    pub fn from_stencil(stencil: Stencil) -> (i: DepthStencilInfo)
        ensures
            i == (DepthStencilInfo {
                depth: None,
                front: Some(stencil.front),
                back: Some(stencil.back),
            }),
    {
        DepthStencilInfo { depth: None, front: Some(stencil.front), back: Some(stencil.back) }
    }

    /// Depth-stencil state from a combined pair: depth test and both
    /// stencil sides populated.
    pub fn from_depth_stencil(depth: Depth, stencil: Stencil) -> (i: DepthStencilInfo)
        ensures
            i == (DepthStencilInfo {
                depth: Some(depth),
                front: Some(stencil.front),
                back: Some(stencil.back),
            }),
    {
        DepthStencilInfo {
            depth: Some(depth),
            front: Some(stencil.front),
            back: Some(stencil.back),
        }
    }
}

/// A struct element descriptor: a format paired with the element's byte
/// offset from the beginning of its container.
#[derive(Clone, Copy, Debug, PartialEq, Eq, Hash)]
pub struct Element<F> {
    /// Element format.
    pub format: F,
    /// Offset from the beginning of the container, in bytes.
    pub offset: ElemOffset,
}

/// Vertex buffer descriptor: layout of one physical vertex buffer.
#[derive(Clone, Copy, Debug, PartialEq, Eq, Hash)]
pub struct VertexBufferDesc {
    /// Total container size, in bytes.
    pub stride: ElemStride,
    /// Rate of the input for the given buffer.
    pub rate: InstanceRate,
}

/// PSO vertex attribute descriptor: the buffer it reads from and its
/// element layout.
pub type AttributeDesc = (BufferIndex, Element<Format>);
/// PSO constant buffer descriptor.
pub type ConstantBufferDesc = Usage;
/// PSO shader resource view descriptor.
pub type ResourceViewDesc = Usage;
/// PSO unordered access view descriptor.
pub type UnorderedViewDesc = Usage;
/// PSO sampler descriptor.
pub type SamplerDesc = Usage;
/// PSO color target descriptor.
pub type ColorTargetDesc = (Format, ColorInfo);
/// PSO depth-stencil target descriptor.
pub type DepthStencilDesc = (Format, DepthStencilInfo);

/// All the information surrounding a shader program that is required for
/// PSO creation, including the formats of vertex buffers and pixel targets.
///
/// Every slot table has its kind's fixed length; an entry of `None` means
/// the slot is unused.
#[derive(Clone, Copy, Debug, PartialEq, Eq, Hash)]
pub struct Descriptor {
    /// Type of the primitive.
    pub primitive: Primitive,
    /// Rasterizer setup.
    pub rasterizer: Rasterizer,
    /// Enable scissor test.
    pub scissor: bool,
    /// Vertex buffers.
    pub vertex_buffers: [Option<VertexBufferDesc>; MAX_VERTEX_BUFFERS],
    /// Vertex attributes.
    pub attributes: [Option<AttributeDesc>; MAX_VERTEX_ATTRIBUTES],
    /// Constant buffers.
    pub constant_buffers: [Option<ConstantBufferDesc>; MAX_CONSTANT_BUFFERS],
    /// Shader resource views.
    pub resource_views: [Option<ResourceViewDesc>; MAX_RESOURCE_VIEWS],
    /// Unordered access views.
    pub unordered_views: [Option<UnorderedViewDesc>; MAX_UNORDERED_VIEWS],
    /// Samplers.
    pub samplers: [Option<SamplerDesc>; MAX_SAMPLERS],
    /// Render target views (RTV).
    pub color_targets: [Option<ColorTargetDesc>; MAX_COLOR_TARGETS],
    /// Depth stencil view (DSV).
    pub depth_stencil: Option<DepthStencilDesc>,
}

impl Descriptor {
    /// Create a new empty PSO descriptor: scissor disabled, every slot of
    /// every kind unused, no depth-stencil target.
    pub fn new(primitive: Primitive, rast: Rasterizer) -> (d: Descriptor)
        ensures
            d.primitive == primitive,
            d.rasterizer == rast,
            !d.scissor,
            forall|i: int| 0 <= i < MAX_VERTEX_BUFFERS ==> d.vertex_buffers@[i] is None,
            forall|i: int| 0 <= i < MAX_VERTEX_ATTRIBUTES ==> d.attributes@[i] is None,
            forall|i: int| 0 <= i < MAX_CONSTANT_BUFFERS ==> d.constant_buffers@[i] is None,
            forall|i: int| 0 <= i < MAX_RESOURCE_VIEWS ==> d.resource_views@[i] is None,
            forall|i: int| 0 <= i < MAX_UNORDERED_VIEWS ==> d.unordered_views@[i] is None,
            forall|i: int| 0 <= i < MAX_SAMPLERS ==> d.samplers@[i] is None,
            forall|i: int| 0 <= i < MAX_COLOR_TARGETS ==> d.color_targets@[i] is None,
            d.depth_stencil is None,
    {
        Descriptor {
            primitive,
            rasterizer: rast,
            scissor: false,
            vertex_buffers: [None; MAX_VERTEX_BUFFERS],
            attributes: [None; MAX_VERTEX_ATTRIBUTES],
            constant_buffers: [None; MAX_CONSTANT_BUFFERS],
            resource_views: [None; MAX_RESOURCE_VIEWS],
            unordered_views: [None; MAX_UNORDERED_VIEWS],
            samplers: [None; MAX_SAMPLERS],
            color_targets: [None; MAX_COLOR_TARGETS],
            depth_stencil: None,
        }
    }

    /// Declare the vertex buffer at `slot`. Reports whether the slot was
    /// within its kind's bound; on failure nothing changes.
    pub fn set_vertex_buffer(&mut self, slot: BufferIndex, desc: VertexBufferDesc) -> (ok: bool)
        ensures
            ok == ((slot as int) < MAX_VERTEX_BUFFERS),
            ok ==> final(self).vertex_buffers@ == old(self).vertex_buffers@.update(
                slot as int,
                Some(desc),
            ),
            ok ==> *final(self) == (Descriptor {
                vertex_buffers: final(self).vertex_buffers,
                ..*old(self)
            }),
            !ok ==> *final(self) == *old(self),
    {
        if (slot as usize) < MAX_VERTEX_BUFFERS {
            self.vertex_buffers[slot as usize] = Some(desc);
            true
        } else {
            false
        }
    }

    /// Declare the vertex attribute at `slot`. Reports whether the slot
    /// was within its kind's bound; on failure nothing changes.
    pub fn set_attribute(&mut self, slot: AttributeSlot, desc: AttributeDesc) -> (ok: bool)
        ensures
            ok == ((slot as int) < MAX_VERTEX_ATTRIBUTES),
            ok ==> final(self).attributes@ == old(self).attributes@.update(
                slot as int,
                Some(desc),
            ),
            ok ==> *final(self) == (Descriptor {
                attributes: final(self).attributes,
                ..*old(self)
            }),
            !ok ==> *final(self) == *old(self),
    {
        if (slot as usize) < MAX_VERTEX_ATTRIBUTES {
            self.attributes[slot as usize] = Some(desc);
            true
        } else {
            false
        }
    }

    /// Declare the constant buffer at `slot`. Reports whether the slot was
    /// within its kind's bound; on failure nothing changes.
    pub fn set_constant_buffer(&mut self, slot: ConstantBufferSlot, desc: ConstantBufferDesc) -> (ok:
        bool)
        ensures
            ok == ((slot as int) < MAX_CONSTANT_BUFFERS),
            ok ==> final(self).constant_buffers@ == old(self).constant_buffers@.update(
                slot as int,
                Some(desc),
            ),
            ok ==> *final(self) == (Descriptor {
                constant_buffers: final(self).constant_buffers,
                ..*old(self)
            }),
            !ok ==> *final(self) == *old(self),
    {
        if (slot as usize) < MAX_CONSTANT_BUFFERS {
            self.constant_buffers[slot as usize] = Some(desc);
            true
        } else {
            false
        }
    }

    /// Declare the shader resource view at `slot`. Reports whether the
    /// slot was within its kind's bound; on failure nothing changes.
    pub fn set_resource_view(&mut self, slot: ResourceViewSlot, desc: ResourceViewDesc) -> (ok:
        bool)
        ensures
            ok == ((slot as int) < MAX_RESOURCE_VIEWS),
            ok ==> final(self).resource_views@ == old(self).resource_views@.update(
                slot as int,
                Some(desc),
            ),
            ok ==> *final(self) == (Descriptor {
                resource_views: final(self).resource_views,
                ..*old(self)
            }),
            !ok ==> *final(self) == *old(self),
    {
        if (slot as usize) < MAX_RESOURCE_VIEWS {
            self.resource_views[slot as usize] = Some(desc);
            true
        } else {
            false
        }
    }

    /// Declare the unordered access view at `slot`. Reports whether the
    /// slot was within its kind's bound; on failure nothing changes.
    pub fn set_unordered_view(&mut self, slot: UnorderedViewSlot, desc: UnorderedViewDesc) -> (ok:
        bool)
        ensures
            ok == ((slot as int) < MAX_UNORDERED_VIEWS),
            ok ==> final(self).unordered_views@ == old(self).unordered_views@.update(
                slot as int,
                Some(desc),
            ),
            ok ==> *final(self) == (Descriptor {
                unordered_views: final(self).unordered_views,
                ..*old(self)
            }),
            !ok ==> *final(self) == *old(self),
    {
        if (slot as usize) < MAX_UNORDERED_VIEWS {
            self.unordered_views[slot as usize] = Some(desc);
            true
        } else {
            false
        }
    }

    /// Declare the sampler at `slot`. Reports whether the slot was within
    /// its kind's bound; on failure nothing changes.
    pub fn set_sampler(&mut self, slot: SamplerSlot, desc: SamplerDesc) -> (ok: bool)
        ensures
            ok == ((slot as int) < MAX_SAMPLERS),
            ok ==> final(self).samplers@ == old(self).samplers@.update(slot as int, Some(desc)),
            ok ==> *final(self) == (Descriptor {
                samplers: final(self).samplers,
                ..*old(self)
            }),
            !ok ==> *final(self) == *old(self),
    {
        if (slot as usize) < MAX_SAMPLERS {
            self.samplers[slot as usize] = Some(desc);
            true
        } else {
            false
        }
    }

    /// Declare the color target at `slot`. Reports whether the slot was
    /// within its kind's bound; on failure nothing changes.
    pub fn set_color_target(&mut self, slot: ColorSlot, desc: ColorTargetDesc) -> (ok: bool)
        ensures
            ok == ((slot as int) < MAX_COLOR_TARGETS),
            ok ==> final(self).color_targets@ == old(self).color_targets@.update(
                slot as int,
                Some(desc),
            ),
            ok ==> *final(self) == (Descriptor {
                color_targets: final(self).color_targets,
                ..*old(self)
            }),
            !ok ==> *final(self) == *old(self),
    {
        if (slot as usize) < MAX_COLOR_TARGETS {
            self.color_targets[slot as usize] = Some(desc);
            true
        } else {
            false
        }
    }

    /// Declare the depth-stencil target.
    pub fn set_depth_stencil(&mut self, desc: DepthStencilDesc)
        ensures
            *final(self) == (Descriptor { depth_stencil: Some(desc), ..*old(self) }),
    {
        self.depth_stencil = Some(desc);
    }
}

/// A complete set of vertex buffers to be used for vertex import in PSO.
///
/// Entries are indexed by vertex *attribute* slot, not by buffer slot:
/// several attribute slots may reference the same buffer handle at
/// different offsets.
pub struct VertexBufferSet<R: Resources>(
    /// Array of buffer handles with offsets inside them.
    pub [Option<(R::Buffer, BufferOffset)>; MAX_VERTEX_ATTRIBUTES],
);

impl<R: Resources> VertexBufferSet<R> {
    /// Create an empty set.
    pub fn new() -> (s: VertexBufferSet<R>)
        ensures
            forall|i: int| 0 <= i < MAX_VERTEX_ATTRIBUTES ==> s.0@[i] is None,
    {
        VertexBufferSet([None; MAX_VERTEX_ATTRIBUTES])
    }

    /// Bind `buffer` at byte `offset` for the attribute at `slot`. Reports
    /// whether the slot was within the attribute bound; on failure nothing
    /// changes.
    pub fn add(&mut self, slot: AttributeSlot, buffer: R::Buffer, offset: BufferOffset) -> (ok:
        bool)
        ensures
            ok == ((slot as int) < MAX_VERTEX_ATTRIBUTES),
            ok ==> final(self).0@ == old(self).0@.update(slot as int, Some((buffer, offset))),
            !ok ==> final(self).0@ == old(self).0@,
    {
        if (slot as usize) < MAX_VERTEX_ATTRIBUTES {
            self.0[slot as usize] = Some((buffer, offset));
            true
        } else {
            false
        }
    }
}

/// A constant buffer run-time parameter for PSO: handle, usage flags, and
/// the slot it binds to.
pub struct ConstantBufferParam<R: Resources>(pub R::Buffer, pub Usage, pub ConstantBufferSlot);

/// A shader resource view (SRV) run-time parameter for PSO.
pub struct ResourceViewParam<R: Resources>(pub R::ShaderResourceView, pub Usage, pub ResourceViewSlot);

/// An unordered access view (UAV) run-time parameter for PSO.
pub struct UnorderedViewParam<R: Resources>(pub R::UnorderedAccessView, pub Usage, pub UnorderedViewSlot);

/// A sampler run-time parameter for PSO.
pub struct SamplerParam<R: Resources>(pub R::Sampler, pub Usage, pub SamplerSlot);

/// A complete set of render targets to be used for pixel export in PSO.
pub struct PixelTargetSet<R: Resources> {
    /// Array of color target views.
    pub colors: [Option<R::RenderTargetView>; MAX_COLOR_TARGETS],
    /// Depth target view.
    pub depth: Option<R::DepthStencilView>,
    /// Stencil target view.
    pub stencil: Option<R::DepthStencilView>,
    /// Rendering dimensions: the componentwise maximum over every view
    /// added so far. This is a conservative policy: it does not verify
    /// that all attached views share identical dimensions.
    pub size: Dimensions,
}

impl<R: Resources> PixelTargetSet<R> {
    /// Create an empty set with a degenerate zero size.
    pub fn new() -> (s: PixelTargetSet<R>)
        ensures
            forall|i: int| 0 <= i < MAX_COLOR_TARGETS ==> s.colors@[i] is None,
            s.depth is None,
            s.stencil is None,
            s.size == (0u16, 0u16, 0u16, AaMode::Single),
    {
        PixelTargetSet {
            colors: [None; MAX_COLOR_TARGETS],
            depth: None,
            stencil: None,
            size: (0, 0, 0, AaMode::Single),
        }
    }

    /// Add a color view at `slot` and grow the aggregate size to cover
    /// `dim`. Reports whether the slot was within the color-target bound;
    /// on failure nothing changes.
    pub fn add_color(&mut self, slot: ColorSlot, view: &R::RenderTargetView, dim: Dimensions) -> (ok:
        bool)
        ensures
            ok == ((slot as int) < MAX_COLOR_TARGETS),
            ok ==> final(self).colors@ == old(self).colors@.update(slot as int, Some(*view)),
            ok ==> final(self).depth == old(self).depth,
            ok ==> final(self).stencil == old(self).stencil,
            ok ==> final(self).size == spec_dim_max(old(self).size, dim),
            !ok ==> *final(self) == *old(self),
    {
        if (slot as usize) < MAX_COLOR_TARGETS {
            self.colors[slot as usize] = Some(*view);
            self.size = dim_max(self.size, dim);
            true
        } else {
            false
        }
    }

    /// Add a depth and/or stencil view, depending on the two flags: a
    /// single view may serve both roles for combined depth-stencil
    /// formats. The aggregate size grows to cover `dim`.
    pub fn add_depth_stencil(
        &mut self,
        view: &R::DepthStencilView,
        has_depth: bool,
        has_stencil: bool,
        dim: Dimensions,
    )
        ensures
            final(self).colors == old(self).colors,
            final(self).depth == (if has_depth {
                Some(*view)
            } else {
                old(self).depth
            }),
            final(self).stencil == (if has_stencil {
                Some(*view)
            } else {
                old(self).stencil
            }),
            final(self).size == spec_dim_max(old(self).size, dim),
    {
        if has_depth {
            self.depth = Some(*view);
        }
        if has_stencil {
            self.stencil = Some(*view);
        }
        self.size = dim_max(self.size, dim);
    }
}

/// Ledger of what the pipeline accesses among currently CPU-mapped buffer
/// memory: one ordered list of mappings the GPU will read from, one of
/// mappings it will write to. Scoped to one encoder pass, cleared and
/// reused rather than reallocated.
pub struct AccessInfo<R: Resources> {
    mapped_reads: Vec<RawMapping<R>>,
    mapped_writes: Vec<RawMapping<R>>,
}

impl<R: Resources> AccessInfo<R> {
    /// The recorded read accesses, in insertion order.
    pub closed spec fn reads(self) -> Seq<RawMapping<R>> {
        self.mapped_reads@
    }

    /// The recorded write accesses, in insertion order.
    pub closed spec fn writes(self) -> Seq<RawMapping<R>> {
        self.mapped_writes@
    }

    /// Creates empty access information.
    pub fn new() -> (info: AccessInfo<R>)
        ensures
            info.reads() == Seq::<RawMapping<R>>::empty(),
            info.writes() == Seq::<RawMapping<R>>::empty(),
    {
        AccessInfo { mapped_reads: Vec::new(), mapped_writes: Vec::new() }
    }

    /// Empty both lists for reuse, keeping the backing storage.
    pub fn clear(&mut self)
        ensures
            final(self).reads() == Seq::<RawMapping<R>>::empty(),
            final(self).writes() == Seq::<RawMapping<R>>::empty(),
    {
        self.mapped_reads.clear();
        self.mapped_writes.clear();
    }

    /// Register a buffer read access: if the buffer currently has an
    /// active CPU-side mapping, that mapping is appended to the read list;
    /// an unmapped buffer leaves the ledger unchanged.
    pub fn buffer_read(&mut self, buffer: &RawBuffer<R>)
        ensures
            final(self).writes() == old(self).writes(),
            buffer.mapping matches Some(m) ==> final(self).reads() == old(self).reads().push(m),
            buffer.mapping is None ==> final(self).reads() == old(self).reads(),
    {
        if let Some(mapping) = buffer.mapping() {
            self.mapped_reads.push(mapping);
        }
    }

    /// Register a buffer write access: if the buffer currently has an
    /// active CPU-side mapping, that mapping is appended to the write
    /// list; an unmapped buffer leaves the ledger unchanged.
    pub fn buffer_write(&mut self, buffer: &RawBuffer<R>)
        ensures
            final(self).reads() == old(self).reads(),
            buffer.mapping matches Some(m) ==> final(self).writes() == old(self).writes().push(m),
            buffer.mapping is None ==> final(self).writes() == old(self).writes(),
    {
        if let Some(mapping) = buffer.mapping() {
            self.mapped_writes.push(mapping);
        }
    }

    /// The mappings associated to buffers that the GPU will read from, in
    /// insertion order.
    pub fn mapped_reads(&self) -> (r: &[RawMapping<R>])
        ensures
            r@ == self.reads(),
    {
        self.mapped_reads.as_slice()
    }

    /// The mappings associated to buffers that the GPU will write to, in
    /// insertion order.
    pub fn mapped_writes(&self) -> (r: &[RawMapping<R>])
        ensures
            r@ == self.writes(),
    {
        self.mapped_writes.as_slice()
    }
}

} // verus!
