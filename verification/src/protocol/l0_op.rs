//! Level Zero opcodes (under [`super::ApiId::LevelZero`](super::ApiId::LevelZero)).
use vstd::prelude::*;

verus! {

/// `zeContextCreate`: create a Level Zero context.
pub const CONTEXT_CREATE: u32 = 0x0600_0001;

/// `zeMemAllocDevice`: allocate a block of device memory in a context.
pub const MEM_ALLOC_DEVICE: u32 = 0x0600_0002;

/// `zeMemFree`: free a previously allocated device pointer.
pub const MEM_FREE: u32 = 0x0600_0003;

/// Every one of these opcodes is in the namespace of
/// [`ApiId::LevelZero`](super::ApiId::LevelZero), each under a call id of its own.
pub proof fn law_opcodes()
    ensures
        CONTEXT_CREATE == super::spec_opcode(super::ApiId::LevelZero, 0x1),
        MEM_ALLOC_DEVICE == super::spec_opcode(super::ApiId::LevelZero, 0x2),
        MEM_FREE == super::spec_opcode(super::ApiId::LevelZero, 0x3),
{
}

} // verus!
