//! Core protocol opcodes (under [`super::ApiId::Core`](super::ApiId::Core)).
use vstd::prelude::*;

verus! {

/// Client → server: open a session and offer protocol parameters.
pub const HELLO: u32 = 0x0000_0001;

/// Server → client: accept the session and confirm parameters.
pub const WELCOME: u32 = 0x0000_0002;

/// A no-op round-trip used to validate the pipe end to end.
pub const NOOP: u32 = 0x0000_0003;

/// Every one of these opcodes is in the namespace of
/// [`ApiId::Core`](super::ApiId::Core), each under a call id of its own.
pub proof fn law_opcodes()
    ensures
        HELLO == super::spec_opcode(super::ApiId::Core, 0x1),
        WELCOME == super::spec_opcode(super::ApiId::Core, 0x2),
        NOOP == super::spec_opcode(super::ApiId::Core, 0x3),
{
}

} // verus!
