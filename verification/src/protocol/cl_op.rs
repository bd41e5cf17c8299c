//! OpenCL opcodes (under [`super::ApiId::OpenCl`](super::ApiId::OpenCl)).
use vstd::prelude::*;

verus! {

/// `clCreateContext`: create an OpenCL context.
pub const CREATE_CONTEXT: u32 = 0x0400_0001;

/// `clCreateBuffer`: create a memory buffer in a context.
pub const CREATE_BUFFER: u32 = 0x0400_0002;

/// `clReleaseMemObject`: release a previously created memory buffer.
pub const RELEASE_BUFFER: u32 = 0x0400_0003;

/// Every one of these opcodes is in the namespace of
/// [`ApiId::OpenCl`](super::ApiId::OpenCl), each under a call id of its own.
pub proof fn law_opcodes()
    ensures
        CREATE_CONTEXT == super::spec_opcode(super::ApiId::OpenCl, 0x1),
        CREATE_BUFFER == super::spec_opcode(super::ApiId::OpenCl, 0x2),
        RELEASE_BUFFER == super::spec_opcode(super::ApiId::OpenCl, 0x3),
{
}

} // verus!
