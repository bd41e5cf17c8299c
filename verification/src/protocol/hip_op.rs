//! HIP opcodes (under [`super::ApiId::Hip`](super::ApiId::Hip)).
use vstd::prelude::*;

verus! {

/// `hipMalloc`: allocate a block of device memory.
pub const MALLOC: u32 = 0x0500_0001;

/// `hipFree`: free a previously allocated device pointer.
pub const FREE: u32 = 0x0500_0002;

/// `hipStreamCreate`: create an asynchronous stream.
pub const STREAM_CREATE: u32 = 0x0500_0003;

/// Every one of these opcodes is in the namespace of
/// [`ApiId::Hip`](super::ApiId::Hip), each under a call id of its own.
pub proof fn law_opcodes()
    ensures
        MALLOC == super::spec_opcode(super::ApiId::Hip, 0x1),
        FREE == super::spec_opcode(super::ApiId::Hip, 0x2),
        STREAM_CREATE == super::spec_opcode(super::ApiId::Hip, 0x3),
{
}

} // verus!
