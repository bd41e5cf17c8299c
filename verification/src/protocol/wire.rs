//! What a message is on the wire.
use vstd::prelude::*;

use super::ProtocolError;

verus! {

/// A message with a byte form, and the laws that tie the two together.
///
/// `encode` of a message appends [`Wire::bytes`]; `decode` of a buffer returns
/// [`Wire::parse`].
pub trait Wire: Sized {
    /// The bytes of the message.
    spec fn bytes(&self) -> Seq<u8>;

    /// The message at the front of `s`, or why there is none.
    spec fn parse(s: Seq<u8>) -> Result<Self, ProtocolError>;

    /// Decoding gives back what was encoded, whatever bytes follow it.
    proof fn law_round_trip(&self, rest: Seq<u8>)
        ensures
            Self::parse(self.bytes() + rest) == Ok::<Self, ProtocolError>(*self),
    ;

    /// Decoding gives back what was encoded where nothing follows it.
    proof fn law_whole(&self)
        ensures
            Self::parse(self.bytes()) == Ok::<Self, ProtocolError>(*self),
    {
        self.law_round_trip(seq![]);
        assert(self.bytes() + Seq::<u8>::empty() =~= self.bytes());
    }

    /// An encoding that is cut short is refused as an unexpected end of buffer.
    proof fn law_truncated(&self, n: int)
        requires
            0 <= n < self.bytes().len(),
        ensures
            Self::parse(self.bytes().take(n)) == Err::<Self, ProtocolError>(
                ProtocolError::UnexpectedEof,
            ),
    ;
}

/// A message with exactly one byte form.
pub trait CanonicalWire: Wire {
    /// What decodes to a message starts with the encoding of that message.
    proof fn law_canonical(s: Seq<u8>)
        ensures
            Self::parse(s) matches Ok(m) ==> m.bytes().len() <= s.len() && m.bytes() == s.take(
                m.bytes().len() as int,
            ),
    ;

    /// The one way to refuse a buffer is an unexpected end.
    proof fn law_refusal(s: Seq<u8>)
        ensures
            Self::parse(s) matches Err(e) ==> e == ProtocolError::UnexpectedEof,
    ;
}

} // verus!
