//! Video codec opcodes (under [`super::ApiId::Video`](super::ApiId::Video)).
use vstd::prelude::*;

verus! {

/// Create a decode session for a given codec and frame geometry.
pub const CREATE_DECODE_SESSION: u32 = 0x0700_0001;

/// Submit a coded bitstream to a session and decode one frame.
pub const DECODE_FRAME: u32 = 0x0700_0002;

/// Destroy a previously created decode session.
pub const DESTROY_SESSION: u32 = 0x0700_0003;

/// Every one of these opcodes is in the namespace of
/// [`ApiId::Video`](super::ApiId::Video), each under a call id of its own.
pub proof fn law_opcodes()
    ensures
        CREATE_DECODE_SESSION == super::spec_opcode(super::ApiId::Video, 0x1),
        DECODE_FRAME == super::spec_opcode(super::ApiId::Video, 0x2),
        DESTROY_SESSION == super::spec_opcode(super::ApiId::Video, 0x3),
{
}

} // verus!
