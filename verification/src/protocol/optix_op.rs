//! OptiX opcodes (under [`super::ApiId::OptiX`](super::ApiId::OptiX)).
use vstd::prelude::*;

verus! {

/// `optixDeviceContextCreate`: create an OptiX device context.
pub const CONTEXT_CREATE: u32 = 0x0900_0001;

/// `optixPipelineCreate`: create a ray-tracing pipeline in a context.
pub const PIPELINE_CREATE: u32 = 0x0900_0002;

/// Destroy a previously created OptiX context or pipeline handle.
pub const DESTROY: u32 = 0x0900_0003;

/// Every one of these opcodes is in the namespace of
/// [`ApiId::OptiX`](super::ApiId::OptiX), each under a call id of its own.
pub proof fn law_opcodes()
    ensures
        CONTEXT_CREATE == super::spec_opcode(super::ApiId::OptiX, 0x1),
        PIPELINE_CREATE == super::spec_opcode(super::ApiId::OptiX, 0x2),
        DESTROY == super::spec_opcode(super::ApiId::OptiX, 0x3),
{
}

} // verus!
