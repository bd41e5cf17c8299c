//! Handshake messages.
use vstd::prelude::*;

use super::bytes;
use super::wire::{CanonicalWire, Wire};
use super::ProtocolError;

verus! {

broadcast use super::bytes::group_le_len;

/// Handshake request body (client → server).
#[derive(Debug, Clone, Copy, PartialEq, Eq)]
pub struct Hello {
    /// Highest protocol major the client supports.
    pub proto_major: u16,
    /// Highest protocol minor the client supports.
    pub proto_minor: u16,
    /// Optional feature bitset the client requests.
    pub features: u32,
    /// Largest control-frame body the client is willing to receive.
    pub max_frame_body: u32,
}

impl Wire for Hello {
    open spec fn bytes(&self) -> Seq<u8> {
        bytes::le_u16(self.proto_major) + bytes::le_u16(self.proto_minor)
            + bytes::le_u32(self.features) + bytes::le_u32(self.max_frame_body)
    }

    open spec fn parse(s: Seq<u8>) -> Result<Self, ProtocolError> {
        if s.len() < 12 {
            Err(ProtocolError::UnexpectedEof)
        } else {
            Ok(
                Hello {
                    proto_major: bytes::u16_at(s, 0),
                    proto_minor: bytes::u16_at(s, 2),
                    features: bytes::u32_at(s, 4),
                    max_frame_body: bytes::u32_at(s, 8),
                },
            )
        }
    }

    proof fn law_round_trip(&self, rest: Seq<u8>) {
        let s = self.bytes() + rest;
        bytes::lemma_u16_at(s, 0, self.proto_major);
        bytes::lemma_u16_at(s, 2, self.proto_minor);
        bytes::lemma_u32_at(s, 4, self.features);
        bytes::lemma_u32_at(s, 8, self.max_frame_body);
    }

    proof fn law_truncated(&self, n: int) {
    }
}

impl CanonicalWire for Hello {
    proof fn law_canonical(s: Seq<u8>) {
        if s.len() >= 12 {
            bytes::lemma_le_u16(s, 0);
            bytes::lemma_le_u16(s, 2);
            bytes::lemma_le_u32(s, 4);
            bytes::lemma_le_u32(s, 8);
            assert(s.subrange(0, 2) + s.subrange(2, 4) + s.subrange(4, 8)
                + s.subrange(8, 12) =~= s.take(12));
        }
    }

    proof fn law_refusal(s: Seq<u8>) {
    }
}

impl Hello {
    /// Append the encoded body to `out`.
    pub fn encode(&self, out: &mut Vec<u8>)
        ensures
            final(out)@ == old(out)@ + self.bytes(),
    {
        bytes::put_u16(out, self.proto_major);
        bytes::put_u16(out, self.proto_minor);
        bytes::put_u32(out, self.features);
        bytes::put_u32(out, self.max_frame_body);
    }

    /// Decode a body.
    pub fn decode(buf: &[u8]) -> (r: Result<Self, ProtocolError>)
        ensures
            r == Self::parse(buf@),
    {
        let mut r = bytes::Reader::new(buf);
        Ok(
            Self {
                proto_major: r.u16()?,
                proto_minor: r.u16()?,
                features: r.u32()?,
                max_frame_body: r.u32()?,
            },
        )
    }
}

/// Handshake response body (server → client).
#[derive(Debug, Clone, Copy, PartialEq, Eq)]
pub struct Welcome {
    /// Protocol major the server selected.
    pub proto_major: u16,
    /// Protocol minor the server selected.
    pub proto_minor: u16,
    /// Feature bitset the server granted.
    pub features: u32,
    /// Negotiated maximum control-frame body.
    pub max_frame_body: u32,
    /// Server-assigned session id.
    pub session_id: u64,
}

impl Wire for Welcome {
    open spec fn bytes(&self) -> Seq<u8> {
        bytes::le_u16(self.proto_major) + bytes::le_u16(self.proto_minor)
            + bytes::le_u32(self.features) + bytes::le_u32(self.max_frame_body)
            + bytes::le_u64(self.session_id)
    }

    open spec fn parse(s: Seq<u8>) -> Result<Self, ProtocolError> {
        if s.len() < 20 {
            Err(ProtocolError::UnexpectedEof)
        } else {
            Ok(
                Welcome {
                    proto_major: bytes::u16_at(s, 0),
                    proto_minor: bytes::u16_at(s, 2),
                    features: bytes::u32_at(s, 4),
                    max_frame_body: bytes::u32_at(s, 8),
                    session_id: bytes::u64_at(s, 12),
                },
            )
        }
    }

    proof fn law_round_trip(&self, rest: Seq<u8>) {
        let s = self.bytes() + rest;
        bytes::lemma_u16_at(s, 0, self.proto_major);
        bytes::lemma_u16_at(s, 2, self.proto_minor);
        bytes::lemma_u32_at(s, 4, self.features);
        bytes::lemma_u32_at(s, 8, self.max_frame_body);
        bytes::lemma_u64_at(s, 12, self.session_id);
    }

    proof fn law_truncated(&self, n: int) {
    }
}

impl CanonicalWire for Welcome {
    proof fn law_canonical(s: Seq<u8>) {
        if s.len() >= 20 {
            bytes::lemma_le_u16(s, 0);
            bytes::lemma_le_u16(s, 2);
            bytes::lemma_le_u32(s, 4);
            bytes::lemma_le_u32(s, 8);
            bytes::lemma_le_u64(s, 12);
            assert(s.subrange(0, 2) + s.subrange(2, 4) + s.subrange(4, 8)
                + s.subrange(8, 12) + s.subrange(12, 20) =~= s.take(20));
        }
    }

    proof fn law_refusal(s: Seq<u8>) {
    }
}

impl Welcome {
    /// Append the encoded body to `out`.
    pub fn encode(&self, out: &mut Vec<u8>)
        ensures
            final(out)@ == old(out)@ + self.bytes(),
    {
        bytes::put_u16(out, self.proto_major);
        bytes::put_u16(out, self.proto_minor);
        bytes::put_u32(out, self.features);
        bytes::put_u32(out, self.max_frame_body);
        bytes::put_u64(out, self.session_id);
    }

    /// Decode a body.
    pub fn decode(buf: &[u8]) -> (r: Result<Self, ProtocolError>)
        ensures
            r == Self::parse(buf@),
    {
        let mut r = bytes::Reader::new(buf);
        Ok(
            Self {
                proto_major: r.u16()?,
                proto_minor: r.u16()?,
                features: r.u32()?,
                max_frame_body: r.u32()?,
                session_id: r.u64()?,
            },
        )
    }
}

/// On the wire a [`Hello`] is `proto_major` in 2 bytes, then `proto_minor` in 2
/// bytes, then `features` in 4 bytes, then `max_frame_body` in 4 bytes, and nothing
/// else.
pub proof fn law_hello_layout(m: Hello)
    ensures
        m.bytes().len() == 12,
        bytes::u16_at(m.bytes(), 0) == m.proto_major,
        bytes::u16_at(m.bytes(), 2) == m.proto_minor,
        bytes::u32_at(m.bytes(), 4) == m.features,
        bytes::u32_at(m.bytes(), 8) == m.max_frame_body,
{
    m.law_whole();
}

/// On the wire a [`Welcome`] is `proto_major` in 2 bytes, then `proto_minor` in 2
/// bytes, then `features` in 4 bytes, then `max_frame_body` in 4 bytes, then
/// `session_id` in 8 bytes, and nothing else.
pub proof fn law_welcome_layout(m: Welcome)
    ensures
        m.bytes().len() == 20,
        bytes::u16_at(m.bytes(), 0) == m.proto_major,
        bytes::u16_at(m.bytes(), 2) == m.proto_minor,
        bytes::u32_at(m.bytes(), 4) == m.features,
        bytes::u32_at(m.bytes(), 8) == m.max_frame_body,
        bytes::u64_at(m.bytes(), 12) == m.session_id,
{
    m.law_whole();
}

} // verus!
