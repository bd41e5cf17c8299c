//! SYCL opcodes (under [`super::ApiId::Sycl`](super::ApiId::Sycl)).
use vstd::prelude::*;

verus! {

/// Create a SYCL queue.
pub const QUEUE_CREATE: u32 = 0x0A00_0001;

/// `sycl::malloc_device`: allocate a block of device memory on a queue.
pub const MALLOC_DEVICE: u32 = 0x0A00_0002;

/// `sycl::free`: free a previously allocated device pointer.
pub const FREE: u32 = 0x0A00_0003;

/// Every one of these opcodes is in the namespace of
/// [`ApiId::Sycl`](super::ApiId::Sycl), each under a call id of its own.
pub proof fn law_opcodes()
    ensures
        QUEUE_CREATE == super::spec_opcode(super::ApiId::Sycl, 0x1),
        MALLOC_DEVICE == super::spec_opcode(super::ApiId::Sycl, 0x2),
        FREE == super::spec_opcode(super::ApiId::Sycl, 0x3),
{
}

} // verus!
