//! CUDA opcodes (under [`super::ApiId::Cuda`](super::ApiId::Cuda)).
use vstd::prelude::*;

verus! {

/// `cuCtxCreate`: create a CUDA context on a device.
pub const CTX_CREATE: u32 = 0x0300_0001;

/// `cuMemAlloc`: allocate a block of device memory in a context.
pub const MEM_ALLOC: u32 = 0x0300_0002;

/// `cuMemFree`: free a previously allocated device pointer.
pub const MEM_FREE: u32 = 0x0300_0003;

/// Every one of these opcodes is in the namespace of
/// [`ApiId::Cuda`](super::ApiId::Cuda), each under a call id of its own.
pub proof fn law_opcodes()
    ensures
        CTX_CREATE == super::spec_opcode(super::ApiId::Cuda, 0x1),
        MEM_ALLOC == super::spec_opcode(super::ApiId::Cuda, 0x2),
        MEM_FREE == super::spec_opcode(super::ApiId::Cuda, 0x3),
{
}

} // verus!
