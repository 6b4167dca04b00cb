//! Resource handles consumed by the hazard-tracking ledger: a buffer handle
//! that may carry an active CPU-side mapping, and the mapping handle itself.
//! Handles are modelled as plain backend values so that what the ledger
//! records can be stated exactly.

use vstd::prelude::*;

use crate::Resources;

verus! {

/// Handle to a CPU-visible mapping of a buffer.
pub struct RawMapping<R: Resources> {
    /// The backend's mapping value.
    pub raw: R::Mapping,
}

/// Handle to a GPU buffer, together with its currently active CPU-side
/// mapping, if any.
pub struct RawBuffer<R: Resources> {
    /// The backend's buffer value.
    pub resource: R::Buffer,
    /// The active CPU-side mapping of this buffer, or `None` when the
    /// buffer is not mapped.
    pub mapping: Option<RawMapping<R>>,
}

impl<R: Resources> RawBuffer<R> {
    /// A buffer handle that carries no active mapping.
    pub fn new_unmapped(resource: R::Buffer) -> (b: RawBuffer<R>)
        ensures
            b.resource == resource,
            b.mapping is None,
    {
        RawBuffer { resource, mapping: None }
    }

    /// A buffer handle whose memory is currently mapped for the CPU.
    pub fn new_mapped(resource: R::Buffer, raw: R::Mapping) -> (b: RawBuffer<R>)
        ensures
            b.resource == resource,
            b.mapping == Some(RawMapping::<R> { raw }),
    {
        RawBuffer { resource, mapping: Some(RawMapping { raw }) }
    }

    /// The active CPU-side mapping of this buffer, or `None` when the
    /// buffer is not mapped.
    pub fn mapping(&self) -> (m: Option<RawMapping<R>>)
        ensures
            m == self.mapping,
    {
        match &self.mapping {
            Some(m) => Some(RawMapping { raw: m.raw }),
            None => None,
        }
    }
}

} // verus!
