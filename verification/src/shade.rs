//! Shader-stage usage flags: which programmable stages access a bound
//! resource. Stored verbatim in PSO slot descriptors and run-time binding
//! parameters.

use vstd::prelude::*;

verus! {

/// Set of shader stages that access a resource.
#[derive(Clone, Copy, Debug, PartialEq, Eq, Hash)]
pub struct Usage {
    /// Accessed by the vertex stage.
    pub vertex: bool,
    /// Accessed by the geometry stage.
    pub geometry: bool,
    /// Accessed by the pixel stage.
    pub pixel: bool,
}

impl Usage {
    /// Usage by no stage.
    pub fn empty() -> (u: Usage)
        ensures
            u == (Usage { vertex: false, geometry: false, pixel: false }),
    {
        Usage { vertex: false, geometry: false, pixel: false }
    }
}

} // verus!
