//! Frame header and framing.
use vstd::prelude::*;

use super::bytes;
use super::wire::Wire;
use super::ProtocolError;

verus! {

broadcast use super::bytes::group_le_len;

/// What a frame is to its receiver.
#[derive(Debug, Clone, Copy, PartialEq, Eq, Structural)]
pub enum FrameKind {
    /// A client-issued request.
    Request,
    /// A server reply correlated by `req_id`.
    Response,
    /// An unsolicited server to client event (e.g. async completion).
    Event,
}

impl FrameKind {
    /// The wire value of the kind.
    pub open spec fn value(self) -> u16 {
        match self {
            FrameKind::Request => 0,
            FrameKind::Response => 1,
            FrameKind::Event => 2,
        }
    }

    /// The kind with wire value `v`, or why there is none.
    pub open spec fn of_value(v: u16) -> Result<FrameKind, ProtocolError> {
        if v == 0 {
            Ok(FrameKind::Request)
        } else if v == 1 {
            Ok(FrameKind::Response)
        } else if v == 2 {
            Ok(FrameKind::Event)
        } else {
            Err(ProtocolError::BadKind(v))
        }
    }

    /// Decode a frame kind from its wire value.
    pub fn from_u16(v: u16) -> (r: Result<Self, ProtocolError>)
        ensures
            r == Self::of_value(v),
    {
        match v {
            0 => Ok(Self::Request),
            1 => Ok(Self::Response),
            2 => Ok(Self::Event),
            other => Err(ProtocolError::BadKind(other)),
        }
    }

    /// The wire value of the kind.
    pub fn to_u16(self) -> (v: u16)
        ensures
            v == self.value(),
    {
        match self {
            FrameKind::Request => 0,
            FrameKind::Response => 1,
            FrameKind::Event => 2,
        }
    }
}

/// Fixed-size protocol frame header.
///
/// `req_id` is the request/response correlation id; `seq` is the per-session
/// monotonic ordering/fence sequence: two distinct ids with distinct roles.
#[derive(Debug, Clone, Copy, PartialEq, Eq, Structural)]
pub struct FrameHeader {
    /// Protocol major version of the sender.
    pub version: u16,
    /// Reserved flag bits (none defined yet).
    pub flags: u16,
    /// Frame kind.
    pub kind: FrameKind,
    /// Entrypoint opcode (see [`opcode`](super::opcode)).
    pub opcode: u32,
    /// Request/response correlation id.
    pub req_id: u32,
    /// Per-session monotonic ordering/fence sequence.
    pub seq: u64,
    /// Length of the payload that follows this header, in bytes.
    pub body_len: u32,
}

/// Encoded size of a [`FrameHeader`] on the wire, in bytes.
///
/// `version(2) + flags(2) + kind(2) + reserved(2) + opcode(4) + req_id(4) +
/// seq(8) + body_len(4)`.
pub const HEADER_LEN: usize = 28;

impl Wire for FrameHeader {
    open spec fn bytes(&self) -> Seq<u8> {
        bytes::le_u16(self.version) + bytes::le_u16(self.flags) + bytes::le_u16(self.kind.value())
            + bytes::le_u16(0) + bytes::le_u32(self.opcode) + bytes::le_u32(self.req_id)
            + bytes::le_u64(self.seq) + bytes::le_u32(self.body_len)
    }

    /// A bad kind is noticed as soon as its two bytes are there; the two
    /// reserved bytes after it are not looked at.
    open spec fn parse(s: Seq<u8>) -> Result<Self, ProtocolError> {
        if s.len() < 6 {
            Err(ProtocolError::UnexpectedEof)
        } else {
            match FrameKind::of_value(bytes::u16_at(s, 4)) {
                Err(e) => Err(e),
                Ok(kind) => if s.len() < HEADER_LEN {
                    Err(ProtocolError::UnexpectedEof)
                } else {
                    Ok(
                        FrameHeader {
                            version: bytes::u16_at(s, 0),
                            flags: bytes::u16_at(s, 2),
                            kind,
                            opcode: bytes::u32_at(s, 8),
                            req_id: bytes::u32_at(s, 12),
                            seq: bytes::u64_at(s, 16),
                            body_len: bytes::u32_at(s, 24),
                        },
                    )
                },
            }
        }
    }

    proof fn law_round_trip(&self, rest: Seq<u8>) {
        let s = self.bytes() + rest;
        bytes::lemma_u16_at(s, 0, self.version);
        bytes::lemma_u16_at(s, 2, self.flags);
        bytes::lemma_u16_at(s, 4, self.kind.value());
        bytes::lemma_u32_at(s, 8, self.opcode);
        bytes::lemma_u32_at(s, 12, self.req_id);
        bytes::lemma_u64_at(s, 16, self.seq);
        bytes::lemma_u32_at(s, 24, self.body_len);
    }

    proof fn law_truncated(&self, n: int) {
        let s = self.bytes().take(n);
        if n >= 6 {
            bytes::lemma_u16_at(s, 4, self.kind.value());
        }
    }
}

impl FrameHeader {
    /// Append the encoded header to `out`.
    pub fn encode(&self, out: &mut Vec<u8>)
        ensures
            final(out)@ == old(out)@ + self.bytes(),
    {
        bytes::put_u16(out, self.version);
        bytes::put_u16(out, self.flags);
        bytes::put_u16(out, self.kind.to_u16());
        bytes::put_u16(out, 0);
        bytes::put_u32(out, self.opcode);
        bytes::put_u32(out, self.req_id);
        bytes::put_u64(out, self.seq);
        bytes::put_u32(out, self.body_len);
    }

    /// Decode a header from the front of `buf`.
    pub fn decode(buf: &[u8]) -> (r: Result<Self, ProtocolError>)
        ensures
            r == Self::parse(buf@),
    {
        let mut r = bytes::Reader::new(buf);
        let version: u16 = r.u16()?;
        let flags: u16 = r.u16()?;
        let kind = FrameKind::from_u16(r.u16()?)?;
        let _reserved: u16 = r.u16()?;
        let opcode: u32 = r.u32()?;
        let req_id: u32 = r.u32()?;
        let seq: u64 = r.u64()?;
        let body_len: u32 = r.u32()?;
        Ok(Self { version, flags, kind, opcode, req_id, seq, body_len })
    }
}

/// The bytes of a frame: the header, then the body.
pub open spec fn frame_bytes(header: FrameHeader, body: Seq<u8>) -> Seq<u8> {
    header.bytes() + body
}

/// The header and the body of the frame `s`, or why it is none. A buffer that
/// is shorter than a header is refused before anything in it is looked at.
pub open spec fn parse_frame(s: Seq<u8>) -> Result<(FrameHeader, Seq<u8>), ProtocolError> {
    if s.len() < HEADER_LEN {
        Err(ProtocolError::UnexpectedEof)
    } else {
        match FrameHeader::parse(s) {
            Ok(header) => Ok((header, s.skip(HEADER_LEN as int))),
            Err(e) => Err(e),
        }
    }
}

/// Encode a complete protocol frame (header + body) into a fresh buffer.
pub fn encode_frame(header: &FrameHeader, body: &[u8]) -> (frame: Vec<u8>)
    ensures
        frame@ == frame_bytes(*header, body@),
{
    let mut out: Vec<u8> = Vec::with_capacity(HEADER_LEN);
    header.encode(&mut out);
    out.extend_from_slice(body);
    out
}

/// Decode a complete protocol frame, returning the header and a slice of the
/// body that follows it. The caller validates `body_len` against the slice.
pub fn decode_frame(buf: &[u8]) -> (r: Result<(FrameHeader, &[u8]), ProtocolError>)
    ensures
        match r {
            Ok((header, body)) => parse_frame(buf@) == Ok::<(FrameHeader, Seq<u8>), ProtocolError>(
                (header, body@),
            ),
            Err(e) => parse_frame(buf@) == Err::<(FrameHeader, Seq<u8>), ProtocolError>(e),
        },
{
    if buf.len() < HEADER_LEN {
        return Err(ProtocolError::UnexpectedEof);
    }
    let header = FrameHeader::decode(buf)?;
    let body: &[u8] = vstd::slice::slice_subrange(buf, HEADER_LEN, buf.len());
    proof {
        assert(body@ =~= buf@.skip(HEADER_LEN as int));
    }
    Ok((header, body))
}

/// Decoding a frame gives back the header and the body it was encoded from.
pub proof fn law_frame_round_trip(header: FrameHeader, body: Seq<u8>)
    ensures
        parse_frame(frame_bytes(header, body)) == Ok::<(FrameHeader, Seq<u8>), ProtocolError>(
            (header, body),
        ),
{
    header.law_round_trip(body);
    assert(frame_bytes(header, body).skip(HEADER_LEN as int) =~= body);
}

/// Every kind has its own wire value, and decodes from it.
pub proof fn law_kind_round_trip(kind: FrameKind)
    ensures
        FrameKind::of_value(kind.value()) == Ok::<FrameKind, ProtocolError>(kind),
{
}

/// The header of a frame of this protocol version without flags.
pub open spec fn plain_header(
    kind: FrameKind,
    opcode: u32,
    req_id: u32,
    seq: u64,
    body_len: u32,
) -> FrameHeader {
    FrameHeader { version: super::PROTOCOL_MAJOR, flags: 0, kind, opcode, req_id, seq, body_len }
}

/// The bytes of a request frame.
pub open spec fn request_bytes(opcode: u32, req_id: u32, seq: u64, body: Seq<u8>) -> Seq<u8> {
    frame_bytes(
        plain_header(FrameKind::Request, opcode, req_id, seq, bytes::low_u32(body.len())),
        body,
    )
}

/// The bytes of a reply frame.
pub open spec fn reply_bytes(opcode: u32, req_id: u32, seq: u64, body: Seq<u8>) -> Seq<u8> {
    frame_bytes(
        plain_header(FrameKind::Response, opcode, req_id, seq, bytes::low_u32(body.len())),
        body,
    )
}

/// Encode a frame of this protocol version without flags, its length field
/// filled in from the body.
pub fn plain_frame(kind: FrameKind, opcode: u32, req_id: u32, seq: u64, body: &[u8]) -> (frame: Vec<
    u8,
>)
    ensures
        frame@ == frame_bytes(
            plain_header(kind, opcode, req_id, seq, bytes::low_u32(body@.len())),
            body@,
        ),
{
    let header = FrameHeader {
        version: super::PROTOCOL_MAJOR,
        flags: 0,
        kind,
        opcode,
        req_id,
        seq,
        body_len: bytes::len_u32(body.len()),
    };
    encode_frame(&header, body)
}

/// On the wire a header is 28 bytes: version, flags, kind and two reserved bytes
/// that are zero, in two bytes each, then the opcode and the request id in four
/// each, the sequence number in eight, and the length of the body in four. A
/// request is kind 0, a response 1, an event 2.
pub proof fn law_header_layout(h: FrameHeader)
    ensures
        h.bytes().len() == 28,
        bytes::u16_at(h.bytes(), 0) == h.version,
        bytes::u16_at(h.bytes(), 2) == h.flags,
        bytes::u16_at(h.bytes(), 4) == (match h.kind {
            FrameKind::Request => 0u16,
            FrameKind::Response => 1u16,
            FrameKind::Event => 2u16,
        }),
        bytes::u16_at(h.bytes(), 6) == 0,
        bytes::u32_at(h.bytes(), 8) == h.opcode,
        bytes::u32_at(h.bytes(), 12) == h.req_id,
        bytes::u64_at(h.bytes(), 16) == h.seq,
        bytes::u32_at(h.bytes(), 24) == h.body_len,
{
    h.law_whole();
    bytes::lemma_u16_at(h.bytes(), 4, h.kind.value());
    bytes::lemma_u16_at(h.bytes(), 6, 0);
}

/// A buffer decodes as a frame if and only if it holds a header of a known kind;
/// the body is all that follows it, and the reserved bytes are not looked at. What
/// is too short for a header is refused as an unexpected end, and an unknown kind
/// as such.
pub proof fn law_decoded_frame(s: Seq<u8>)
    ensures
        s.len() < 28 ==> parse_frame(s) == Err::<(FrameHeader, Seq<u8>), ProtocolError>(
            ProtocolError::UnexpectedEof,
        ),
        s.len() >= 28 && bytes::u16_at(s, 4) > 2 ==> parse_frame(s) == Err::<
            (FrameHeader, Seq<u8>),
            ProtocolError,
        >(ProtocolError::BadKind(bytes::u16_at(s, 4))),
        s.len() >= 28 && bytes::u16_at(s, 4) <= 2 ==> (parse_frame(s) matches Ok((h, body)) && {
            &&& body == s.skip(28)
            &&& h.version == bytes::u16_at(s, 0)
            &&& h.flags == bytes::u16_at(s, 2)
            &&& h.kind == FrameKind::Request <==> bytes::u16_at(s, 4) == 0
            &&& h.kind == FrameKind::Response <==> bytes::u16_at(s, 4) == 1
            &&& h.kind == FrameKind::Event <==> bytes::u16_at(s, 4) == 2
            &&& h.opcode == bytes::u32_at(s, 8)
            &&& h.req_id == bytes::u32_at(s, 12)
            &&& h.seq == bytes::u64_at(s, 16)
            &&& h.body_len == bytes::u32_at(s, 24)
        }),
{
}

/// The frames that clients and servers make carry what they were made from: this
/// protocol version, no flags, their kind, opcode, request id and sequence number,
/// and a body whose length they declare.
pub proof fn law_made_frames(opcode: u32, req_id: u32, seq: u64, body: Seq<u8>)
    requires
        body.len() <= u32::MAX,
    ensures
        parse_frame(request_bytes(opcode, req_id, seq, body)) == Ok::<
            (FrameHeader, Seq<u8>),
            ProtocolError,
        >(
            (
                FrameHeader {
                    version: super::PROTOCOL_MAJOR,
                    flags: 0,
                    kind: FrameKind::Request,
                    opcode,
                    req_id,
                    seq,
                    body_len: body.len() as u32,
                },
                body,
            ),
        ),
        parse_frame(reply_bytes(opcode, req_id, seq, body)) == Ok::<
            (FrameHeader, Seq<u8>),
            ProtocolError,
        >(
            (
                FrameHeader {
                    version: super::PROTOCOL_MAJOR,
                    flags: 0,
                    kind: FrameKind::Response,
                    opcode,
                    req_id,
                    seq,
                    body_len: body.len() as u32,
                },
                body,
            ),
        ),
{
    let len = bytes::low_u32(body.len());
    law_frame_round_trip(plain_header(FrameKind::Request, opcode, req_id, seq, len), body);
    law_frame_round_trip(plain_header(FrameKind::Response, opcode, req_id, seq, len), body);
}

} // verus!
