//! WebGPU opcodes (under [`super::ApiId::WebGpu`](super::ApiId::WebGpu)).
use vstd::prelude::*;

verus! {

/// `requestDevice`: acquire a logical device from an adapter.
pub const REQUEST_DEVICE: u32 = 0x0800_0001;

/// `createBuffer`: create a buffer on a device.
pub const CREATE_BUFFER: u32 = 0x0800_0002;

/// `destroy`: destroy a previously created buffer.
pub const DESTROY_BUFFER: u32 = 0x0800_0003;

/// Every one of these opcodes is in the namespace of
/// [`ApiId::WebGpu`](super::ApiId::WebGpu), each under a call id of its own.
pub proof fn law_opcodes()
    ensures
        REQUEST_DEVICE == super::spec_opcode(super::ApiId::WebGpu, 0x1),
        CREATE_BUFFER == super::spec_opcode(super::ApiId::WebGpu, 0x2),
        DESTROY_BUFFER == super::spec_opcode(super::ApiId::WebGpu, 0x3),
{
}

} // verus!
