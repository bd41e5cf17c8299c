//! AMF opcodes (under [`super::ApiId::Amf`](super::ApiId::Amf)).
use vstd::prelude::*;

verus! {

/// Create an AMF encoder for a given codec and frame geometry.
pub const CREATE_ENCODER: u32 = 0x0B00_0001;

/// Submit one raw frame to an encoder and produce a coded packet.
pub const ENCODE_FRAME: u32 = 0x0B00_0002;

/// Destroy a previously created encoder.
pub const DESTROY_ENCODER: u32 = 0x0B00_0003;

/// Every one of these opcodes is in the namespace of
/// [`ApiId::Amf`](super::ApiId::Amf), each under a call id of its own.
pub proof fn law_opcodes()
    ensures
        CREATE_ENCODER == super::spec_opcode(super::ApiId::Amf, 0x1),
        ENCODE_FRAME == super::spec_opcode(super::ApiId::Amf, 0x2),
        DESTROY_ENCODER == super::spec_opcode(super::ApiId::Amf, 0x3),
{
}

} // verus!
