//! OpenGL opcodes (under [`super::ApiId::OpenGl`](super::ApiId::OpenGl)).
use vstd::prelude::*;

verus! {

/// Create a rendering context.
pub const CREATE_CONTEXT: u32 = 0x0200_0001;

/// Make a context current on the calling session.
pub const MAKE_CURRENT: u32 = 0x0200_0002;

/// Generate a buffer object within a context.
pub const GEN_BUFFER: u32 = 0x0200_0003;

/// Present the back buffer of a context.
pub const SWAP_BUFFERS: u32 = 0x0200_0004;

/// Delete a buffer object.
pub const DELETE_BUFFER: u32 = 0x0200_0005;

/// Every one of these opcodes is in the namespace of
/// [`ApiId::OpenGl`](super::ApiId::OpenGl), each under a call id of its own.
pub proof fn law_opcodes()
    ensures
        CREATE_CONTEXT == super::spec_opcode(super::ApiId::OpenGl, 0x1),
        MAKE_CURRENT == super::spec_opcode(super::ApiId::OpenGl, 0x2),
        GEN_BUFFER == super::spec_opcode(super::ApiId::OpenGl, 0x3),
        SWAP_BUFFERS == super::spec_opcode(super::ApiId::OpenGl, 0x4),
        DELETE_BUFFER == super::spec_opcode(super::ApiId::OpenGl, 0x5),
{
}

} // verus!
