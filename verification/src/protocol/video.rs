//! Video codec request/response body encoders and decoders.
//!
//! These match the canonical wire bodies for the Video opcodes in
//! [`video_op`](super::video_op). Every multi-byte field is little-endian and a [`Handle`] is
//! carried as its raw 64-bit value (see [`Handle::raw`]). Short buffers decode
//! to [`ProtocolError::UnexpectedEof`].
//!
//! [`video_op::DESTROY_SESSION`](super::video_op::DESTROY_SESSION) replies with
//! an empty (ack) body, so its response needs no struct here.
use vstd::prelude::*;

use super::bytes;
use super::handle::Handle;
use super::wire::{CanonicalWire, Wire};
use super::ProtocolError;

verus! {

broadcast use {super::bytes::group_le_len, super::handle::group_handle_raw};

/// Request body for
/// [`video_op::CREATE_DECODE_SESSION`](super::video_op::CREATE_DECODE_SESSION).
#[derive(Debug, Clone, Copy, PartialEq, Eq)]
pub struct CreateDecodeSessionRequest {
    /// Codec identifier the session decodes.
    pub codec: u32,
    /// Decoded frame width in pixels.
    pub width: u32,
    /// Decoded frame height in pixels.
    pub height: u32,
}

impl Wire for CreateDecodeSessionRequest {
    open spec fn bytes(&self) -> Seq<u8> {
        bytes::le_u32(self.codec) + bytes::le_u32(self.width) + bytes::le_u32(self.height)
    }

    open spec fn parse(s: Seq<u8>) -> Result<Self, ProtocolError> {
        if s.len() < 12 {
            Err(ProtocolError::UnexpectedEof)
        } else {
            Ok(
                CreateDecodeSessionRequest {
                    codec: bytes::u32_at(s, 0),
                    width: bytes::u32_at(s, 4),
                    height: bytes::u32_at(s, 8),
                },
            )
        }
    }

    proof fn law_round_trip(&self, rest: Seq<u8>) {
        let s = self.bytes() + rest;
        bytes::lemma_u32_at(s, 0, self.codec);
        bytes::lemma_u32_at(s, 4, self.width);
        bytes::lemma_u32_at(s, 8, self.height);
    }

    proof fn law_truncated(&self, n: int) {
    }
}

impl CanonicalWire for CreateDecodeSessionRequest {
    proof fn law_canonical(s: Seq<u8>) {
        if s.len() >= 12 {
            bytes::lemma_le_u32(s, 0);
            bytes::lemma_le_u32(s, 4);
            bytes::lemma_le_u32(s, 8);
            assert(s.subrange(0, 4) + s.subrange(4, 8) + s.subrange(8, 12) =~= s.take(12));
        }
    }

    proof fn law_refusal(s: Seq<u8>) {
    }
}

impl CreateDecodeSessionRequest {
    /// Append the encoded body to `out`.
    pub fn encode(&self, out: &mut Vec<u8>)
        ensures
            final(out)@ == old(out)@ + self.bytes(),
    {
        bytes::put_u32(out, self.codec);
        bytes::put_u32(out, self.width);
        bytes::put_u32(out, self.height);
    }

    /// Decode a body.
    pub fn decode(buf: &[u8]) -> (r: Result<Self, ProtocolError>)
        ensures
            r == Self::parse(buf@),
    {
        let mut r = bytes::Reader::new(buf);
        Ok(
            Self {
                codec: r.u32()?,
                width: r.u32()?,
                height: r.u32()?,
            },
        )
    }
}

/// Response body for
/// [`video_op::CREATE_DECODE_SESSION`](super::video_op::CREATE_DECODE_SESSION).
#[derive(Debug, Clone, Copy, PartialEq, Eq)]
pub struct CreateDecodeSessionResponse {
    /// Handle naming the newly created decode session.
    pub session: Handle,
}

impl Wire for CreateDecodeSessionResponse {
    open spec fn bytes(&self) -> Seq<u8> {
        bytes::le_u64(self.session@)
    }

    open spec fn parse(s: Seq<u8>) -> Result<Self, ProtocolError> {
        if s.len() < 8 {
            Err(ProtocolError::UnexpectedEof)
        } else {
            Ok(
                CreateDecodeSessionResponse {
                    session: Handle::of(bytes::u64_at(s, 0)),
                },
            )
        }
    }

    proof fn law_round_trip(&self, rest: Seq<u8>) {
        let s = self.bytes() + rest;
        bytes::lemma_u64_at(s, 0, self.session@);
    }

    proof fn law_truncated(&self, n: int) {
    }
}

impl CanonicalWire for CreateDecodeSessionResponse {
    proof fn law_canonical(s: Seq<u8>) {
        if s.len() >= 8 {
            bytes::lemma_le_u64(s, 0);
            assert(s.subrange(0, 8) =~= s.take(8));
        }
    }

    proof fn law_refusal(s: Seq<u8>) {
    }
}

impl CreateDecodeSessionResponse {
    /// Append the encoded body to `out`.
    pub fn encode(&self, out: &mut Vec<u8>)
        ensures
            final(out)@ == old(out)@ + self.bytes(),
    {
        bytes::put_u64(out, self.session.raw());
    }

    /// Decode a body.
    pub fn decode(buf: &[u8]) -> (r: Result<Self, ProtocolError>)
        ensures
            r == Self::parse(buf@),
    {
        let mut r = bytes::Reader::new(buf);
        Ok(
            Self {
                session: Handle::from_raw(r.u64()?),
            },
        )
    }
}

/// Request body for [`video_op::DECODE_FRAME`](super::video_op::DECODE_FRAME).
#[derive(Debug, Clone, Copy, PartialEq, Eq)]
pub struct DecodeFrameRequest {
    /// Handle naming the decode session the bitstream is submitted to.
    pub session: Handle,
    /// Length of the coded bitstream in bytes.
    pub bitstream_len: u32,
}

impl Wire for DecodeFrameRequest {
    open spec fn bytes(&self) -> Seq<u8> {
        bytes::le_u64(self.session@) + bytes::le_u32(self.bitstream_len)
    }

    open spec fn parse(s: Seq<u8>) -> Result<Self, ProtocolError> {
        if s.len() < 12 {
            Err(ProtocolError::UnexpectedEof)
        } else {
            Ok(
                DecodeFrameRequest {
                    session: Handle::of(bytes::u64_at(s, 0)),
                    bitstream_len: bytes::u32_at(s, 8),
                },
            )
        }
    }

    proof fn law_round_trip(&self, rest: Seq<u8>) {
        let s = self.bytes() + rest;
        bytes::lemma_u64_at(s, 0, self.session@);
        bytes::lemma_u32_at(s, 8, self.bitstream_len);
    }

    proof fn law_truncated(&self, n: int) {
    }
}

impl CanonicalWire for DecodeFrameRequest {
    proof fn law_canonical(s: Seq<u8>) {
        if s.len() >= 12 {
            bytes::lemma_le_u64(s, 0);
            bytes::lemma_le_u32(s, 8);
            assert(s.subrange(0, 8) + s.subrange(8, 12) =~= s.take(12));
        }
    }

    proof fn law_refusal(s: Seq<u8>) {
    }
}

impl DecodeFrameRequest {
    /// Append the encoded body to `out`.
    pub fn encode(&self, out: &mut Vec<u8>)
        ensures
            final(out)@ == old(out)@ + self.bytes(),
    {
        bytes::put_u64(out, self.session.raw());
        bytes::put_u32(out, self.bitstream_len);
    }

    /// Decode a body.
    pub fn decode(buf: &[u8]) -> (r: Result<Self, ProtocolError>)
        ensures
            r == Self::parse(buf@),
    {
        let mut r = bytes::Reader::new(buf);
        Ok(
            Self {
                session: Handle::from_raw(r.u64()?),
                bitstream_len: r.u32()?,
            },
        )
    }
}

/// Response body for [`video_op::DECODE_FRAME`](super::video_op::DECODE_FRAME).
#[derive(Debug, Clone, Copy, PartialEq, Eq)]
pub struct DecodeFrameResponse {
    /// Index of the decoded frame in the session's output sequence.
    pub frame_index: u32,
}

impl Wire for DecodeFrameResponse {
    open spec fn bytes(&self) -> Seq<u8> {
        bytes::le_u32(self.frame_index)
    }

    open spec fn parse(s: Seq<u8>) -> Result<Self, ProtocolError> {
        if s.len() < 4 {
            Err(ProtocolError::UnexpectedEof)
        } else {
            Ok(
                DecodeFrameResponse {
                    frame_index: bytes::u32_at(s, 0),
                },
            )
        }
    }

    proof fn law_round_trip(&self, rest: Seq<u8>) {
        let s = self.bytes() + rest;
        bytes::lemma_u32_at(s, 0, self.frame_index);
    }

    proof fn law_truncated(&self, n: int) {
    }
}

impl CanonicalWire for DecodeFrameResponse {
    proof fn law_canonical(s: Seq<u8>) {
        if s.len() >= 4 {
            bytes::lemma_le_u32(s, 0);
            assert(s.subrange(0, 4) =~= s.take(4));
        }
    }

    proof fn law_refusal(s: Seq<u8>) {
    }
}

impl DecodeFrameResponse {
    /// Append the encoded body to `out`.
    pub fn encode(&self, out: &mut Vec<u8>)
        ensures
            final(out)@ == old(out)@ + self.bytes(),
    {
        bytes::put_u32(out, self.frame_index);
    }

    /// Decode a body.
    pub fn decode(buf: &[u8]) -> (r: Result<Self, ProtocolError>)
        ensures
            r == Self::parse(buf@),
    {
        let mut r = bytes::Reader::new(buf);
        Ok(
            Self {
                frame_index: r.u32()?,
            },
        )
    }
}

/// Request body for
/// [`video_op::DESTROY_SESSION`](super::video_op::DESTROY_SESSION).
///
/// The reply is an empty (ack) body, so there is no response struct.
#[derive(Debug, Clone, Copy, PartialEq, Eq)]
pub struct DestroySessionRequest {
    /// Handle naming the decode session being destroyed.
    pub session: Handle,
}

impl Wire for DestroySessionRequest {
    open spec fn bytes(&self) -> Seq<u8> {
        bytes::le_u64(self.session@)
    }

    open spec fn parse(s: Seq<u8>) -> Result<Self, ProtocolError> {
        if s.len() < 8 {
            Err(ProtocolError::UnexpectedEof)
        } else {
            Ok(
                DestroySessionRequest {
                    session: Handle::of(bytes::u64_at(s, 0)),
                },
            )
        }
    }

    proof fn law_round_trip(&self, rest: Seq<u8>) {
        let s = self.bytes() + rest;
        bytes::lemma_u64_at(s, 0, self.session@);
    }

    proof fn law_truncated(&self, n: int) {
    }
}

impl CanonicalWire for DestroySessionRequest {
    proof fn law_canonical(s: Seq<u8>) {
        if s.len() >= 8 {
            bytes::lemma_le_u64(s, 0);
            assert(s.subrange(0, 8) =~= s.take(8));
        }
    }

    proof fn law_refusal(s: Seq<u8>) {
    }
}

impl DestroySessionRequest {
    /// Append the encoded body to `out`.
    pub fn encode(&self, out: &mut Vec<u8>)
        ensures
            final(out)@ == old(out)@ + self.bytes(),
    {
        bytes::put_u64(out, self.session.raw());
    }

    /// Decode a body.
    pub fn decode(buf: &[u8]) -> (r: Result<Self, ProtocolError>)
        ensures
            r == Self::parse(buf@),
    {
        let mut r = bytes::Reader::new(buf);
        Ok(
            Self {
                session: Handle::from_raw(r.u64()?),
            },
        )
    }
}

/// On the wire a [`CreateDecodeSessionRequest`] is `codec` in 4 bytes, then `width`
/// in 4 bytes, then `height` in 4 bytes, and nothing else.
pub proof fn law_create_decode_session_request_layout(m: CreateDecodeSessionRequest)
    ensures
        m.bytes().len() == 12,
        bytes::u32_at(m.bytes(), 0) == m.codec,
        bytes::u32_at(m.bytes(), 4) == m.width,
        bytes::u32_at(m.bytes(), 8) == m.height,
{
    m.law_whole();
}

/// On the wire a [`CreateDecodeSessionResponse`] is `session` in 8 bytes, and
/// nothing else.
pub proof fn law_create_decode_session_response_layout(m: CreateDecodeSessionResponse)
    ensures
        m.bytes().len() == 8,
        bytes::u64_at(m.bytes(), 0) == m.session@,
{
    m.law_whole();
}

/// On the wire a [`DecodeFrameRequest`] is `session` in 8 bytes, then
/// `bitstream_len` in 4 bytes, and nothing else.
pub proof fn law_decode_frame_request_layout(m: DecodeFrameRequest)
    ensures
        m.bytes().len() == 12,
        bytes::u64_at(m.bytes(), 0) == m.session@,
        bytes::u32_at(m.bytes(), 8) == m.bitstream_len,
{
    m.law_whole();
}

/// On the wire a [`DecodeFrameResponse`] is `frame_index` in 4 bytes, and nothing
/// else.
pub proof fn law_decode_frame_response_layout(m: DecodeFrameResponse)
    ensures
        m.bytes().len() == 4,
        bytes::u32_at(m.bytes(), 0) == m.frame_index,
{
    m.law_whole();
}

/// On the wire a [`DestroySessionRequest`] is `session` in 8 bytes, and nothing
/// else.
pub proof fn law_destroy_session_request_layout(m: DestroySessionRequest)
    ensures
        m.bytes().len() == 8,
        bytes::u64_at(m.bytes(), 0) == m.session@,
{
    m.law_whole();
}

} // verus!
