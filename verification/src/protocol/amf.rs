//! AMF request/response body encoders and decoders.
//!
//! These match the canonical wire bodies for the AMF opcodes in [`amf_op`](super::amf_op).
//! Every multi-byte field is little-endian and a [`Handle`] is carried as its
//! raw 64-bit value (see [`Handle::raw`]). Short buffers decode to
//! [`ProtocolError::UnexpectedEof`].
//!
//! [`amf_op::DESTROY_ENCODER`](super::amf_op::DESTROY_ENCODER) replies with an
//! empty (ack) body, so its response needs no struct here.
use vstd::prelude::*;

use super::bytes;
use super::handle::Handle;
use super::wire::{CanonicalWire, Wire};
use super::ProtocolError;

verus! {

broadcast use {super::bytes::group_le_len, super::handle::group_handle_raw};

/// Request body for
/// [`amf_op::CREATE_ENCODER`](super::amf_op::CREATE_ENCODER).
#[derive(Debug, Clone, Copy, PartialEq, Eq)]
pub struct CreateEncoderRequest {
    /// Codec identifier the encoder produces.
    pub codec: u32,
    /// Encoded frame width in pixels.
    pub width: u32,
    /// Encoded frame height in pixels.
    pub height: u32,
}

impl Wire for CreateEncoderRequest {
    open spec fn bytes(&self) -> Seq<u8> {
        bytes::le_u32(self.codec) + bytes::le_u32(self.width) + bytes::le_u32(self.height)
    }

    open spec fn parse(s: Seq<u8>) -> Result<Self, ProtocolError> {
        if s.len() < 12 {
            Err(ProtocolError::UnexpectedEof)
        } else {
            Ok(
                CreateEncoderRequest {
                    codec: bytes::u32_at(s, 0),
                    width: bytes::u32_at(s, 4),
                    height: bytes::u32_at(s, 8),
                },
            )
        }
    }

    proof fn law_round_trip(&self, rest: Seq<u8>) {
        let s = self.bytes() + rest;
        bytes::lemma_u32_at(s, 0, self.codec);
        bytes::lemma_u32_at(s, 4, self.width);
        bytes::lemma_u32_at(s, 8, self.height);
    }

    proof fn law_truncated(&self, n: int) {
    }
}

impl CanonicalWire for CreateEncoderRequest {
    proof fn law_canonical(s: Seq<u8>) {
        if s.len() >= 12 {
            bytes::lemma_le_u32(s, 0);
            bytes::lemma_le_u32(s, 4);
            bytes::lemma_le_u32(s, 8);
            assert(s.subrange(0, 4) + s.subrange(4, 8) + s.subrange(8, 12) =~= s.take(12));
        }
    }

    proof fn law_refusal(s: Seq<u8>) {
    }
}

impl CreateEncoderRequest {
    /// Append the encoded body to `out`.
    pub fn encode(&self, out: &mut Vec<u8>)
        ensures
            final(out)@ == old(out)@ + self.bytes(),
    {
        bytes::put_u32(out, self.codec);
        bytes::put_u32(out, self.width);
        bytes::put_u32(out, self.height);
    }

    /// Decode a body.
    pub fn decode(buf: &[u8]) -> (r: Result<Self, ProtocolError>)
        ensures
            r == Self::parse(buf@),
    {
        let mut r = bytes::Reader::new(buf);
        Ok(
            Self {
                codec: r.u32()?,
                width: r.u32()?,
                height: r.u32()?,
            },
        )
    }
}

/// Response body for
/// [`amf_op::CREATE_ENCODER`](super::amf_op::CREATE_ENCODER).
#[derive(Debug, Clone, Copy, PartialEq, Eq)]
pub struct CreateEncoderResponse {
    /// Handle naming the newly created encoder.
    pub encoder: Handle,
}

impl Wire for CreateEncoderResponse {
    open spec fn bytes(&self) -> Seq<u8> {
        bytes::le_u64(self.encoder@)
    }

    open spec fn parse(s: Seq<u8>) -> Result<Self, ProtocolError> {
        if s.len() < 8 {
            Err(ProtocolError::UnexpectedEof)
        } else {
            Ok(
                CreateEncoderResponse {
                    encoder: Handle::of(bytes::u64_at(s, 0)),
                },
            )
        }
    }

    proof fn law_round_trip(&self, rest: Seq<u8>) {
        let s = self.bytes() + rest;
        bytes::lemma_u64_at(s, 0, self.encoder@);
    }

    proof fn law_truncated(&self, n: int) {
    }
}

impl CanonicalWire for CreateEncoderResponse {
    proof fn law_canonical(s: Seq<u8>) {
        if s.len() >= 8 {
            bytes::lemma_le_u64(s, 0);
            assert(s.subrange(0, 8) =~= s.take(8));
        }
    }

    proof fn law_refusal(s: Seq<u8>) {
    }
}

impl CreateEncoderResponse {
    /// Append the encoded body to `out`.
    pub fn encode(&self, out: &mut Vec<u8>)
        ensures
            final(out)@ == old(out)@ + self.bytes(),
    {
        bytes::put_u64(out, self.encoder.raw());
    }

    /// Decode a body.
    pub fn decode(buf: &[u8]) -> (r: Result<Self, ProtocolError>)
        ensures
            r == Self::parse(buf@),
    {
        let mut r = bytes::Reader::new(buf);
        Ok(
            Self {
                encoder: Handle::from_raw(r.u64()?),
            },
        )
    }
}

/// Request body for [`amf_op::ENCODE_FRAME`](super::amf_op::ENCODE_FRAME).
#[derive(Debug, Clone, Copy, PartialEq, Eq)]
pub struct EncodeFrameRequest {
    /// Handle naming the encoder the frame is submitted to.
    pub encoder: Handle,
    /// Length of the raw input frame in bytes.
    pub frame_len: u32,
}

impl Wire for EncodeFrameRequest {
    open spec fn bytes(&self) -> Seq<u8> {
        bytes::le_u64(self.encoder@) + bytes::le_u32(self.frame_len)
    }

    open spec fn parse(s: Seq<u8>) -> Result<Self, ProtocolError> {
        if s.len() < 12 {
            Err(ProtocolError::UnexpectedEof)
        } else {
            Ok(
                EncodeFrameRequest {
                    encoder: Handle::of(bytes::u64_at(s, 0)),
                    frame_len: bytes::u32_at(s, 8),
                },
            )
        }
    }

    proof fn law_round_trip(&self, rest: Seq<u8>) {
        let s = self.bytes() + rest;
        bytes::lemma_u64_at(s, 0, self.encoder@);
        bytes::lemma_u32_at(s, 8, self.frame_len);
    }

    proof fn law_truncated(&self, n: int) {
    }
}

impl CanonicalWire for EncodeFrameRequest {
    proof fn law_canonical(s: Seq<u8>) {
        if s.len() >= 12 {
            bytes::lemma_le_u64(s, 0);
            bytes::lemma_le_u32(s, 8);
            assert(s.subrange(0, 8) + s.subrange(8, 12) =~= s.take(12));
        }
    }

    proof fn law_refusal(s: Seq<u8>) {
    }
}

impl EncodeFrameRequest {
    /// Append the encoded body to `out`.
    pub fn encode(&self, out: &mut Vec<u8>)
        ensures
            final(out)@ == old(out)@ + self.bytes(),
    {
        bytes::put_u64(out, self.encoder.raw());
        bytes::put_u32(out, self.frame_len);
    }

    /// Decode a body.
    pub fn decode(buf: &[u8]) -> (r: Result<Self, ProtocolError>)
        ensures
            r == Self::parse(buf@),
    {
        let mut r = bytes::Reader::new(buf);
        Ok(
            Self {
                encoder: Handle::from_raw(r.u64()?),
                frame_len: r.u32()?,
            },
        )
    }
}

/// Response body for [`amf_op::ENCODE_FRAME`](super::amf_op::ENCODE_FRAME).
#[derive(Debug, Clone, Copy, PartialEq, Eq)]
pub struct EncodeFrameResponse {
    /// Length of the produced coded packet in bytes.
    pub packet_len: u32,
}

impl Wire for EncodeFrameResponse {
    open spec fn bytes(&self) -> Seq<u8> {
        bytes::le_u32(self.packet_len)
    }

    open spec fn parse(s: Seq<u8>) -> Result<Self, ProtocolError> {
        if s.len() < 4 {
            Err(ProtocolError::UnexpectedEof)
        } else {
            Ok(
                EncodeFrameResponse {
                    packet_len: bytes::u32_at(s, 0),
                },
            )
        }
    }

    proof fn law_round_trip(&self, rest: Seq<u8>) {
        let s = self.bytes() + rest;
        bytes::lemma_u32_at(s, 0, self.packet_len);
    }

    proof fn law_truncated(&self, n: int) {
    }
}

impl CanonicalWire for EncodeFrameResponse {
    proof fn law_canonical(s: Seq<u8>) {
        if s.len() >= 4 {
            bytes::lemma_le_u32(s, 0);
            assert(s.subrange(0, 4) =~= s.take(4));
        }
    }

    proof fn law_refusal(s: Seq<u8>) {
    }
}

impl EncodeFrameResponse {
    /// Append the encoded body to `out`.
    pub fn encode(&self, out: &mut Vec<u8>)
        ensures
            final(out)@ == old(out)@ + self.bytes(),
    {
        bytes::put_u32(out, self.packet_len);
    }

    /// Decode a body.
    pub fn decode(buf: &[u8]) -> (r: Result<Self, ProtocolError>)
        ensures
            r == Self::parse(buf@),
    {
        let mut r = bytes::Reader::new(buf);
        Ok(
            Self {
                packet_len: r.u32()?,
            },
        )
    }
}

/// Request body for
/// [`amf_op::DESTROY_ENCODER`](super::amf_op::DESTROY_ENCODER).
///
/// The reply is an empty (ack) body, so there is no response struct.
#[derive(Debug, Clone, Copy, PartialEq, Eq)]
pub struct DestroyEncoderRequest {
    /// Handle naming the encoder being destroyed.
    pub encoder: Handle,
}

impl Wire for DestroyEncoderRequest {
    open spec fn bytes(&self) -> Seq<u8> {
        bytes::le_u64(self.encoder@)
    }

    open spec fn parse(s: Seq<u8>) -> Result<Self, ProtocolError> {
        if s.len() < 8 {
            Err(ProtocolError::UnexpectedEof)
        } else {
            Ok(
                DestroyEncoderRequest {
                    encoder: Handle::of(bytes::u64_at(s, 0)),
                },
            )
        }
    }

    proof fn law_round_trip(&self, rest: Seq<u8>) {
        let s = self.bytes() + rest;
        bytes::lemma_u64_at(s, 0, self.encoder@);
    }

    proof fn law_truncated(&self, n: int) {
    }
}

impl CanonicalWire for DestroyEncoderRequest {
    proof fn law_canonical(s: Seq<u8>) {
        if s.len() >= 8 {
            bytes::lemma_le_u64(s, 0);
            assert(s.subrange(0, 8) =~= s.take(8));
        }
    }

    proof fn law_refusal(s: Seq<u8>) {
    }
}

impl DestroyEncoderRequest {
    /// Append the encoded body to `out`.
    pub fn encode(&self, out: &mut Vec<u8>)
        ensures
            final(out)@ == old(out)@ + self.bytes(),
    {
        bytes::put_u64(out, self.encoder.raw());
    }

    /// Decode a body.
    pub fn decode(buf: &[u8]) -> (r: Result<Self, ProtocolError>)
        ensures
            r == Self::parse(buf@),
    {
        let mut r = bytes::Reader::new(buf);
        Ok(
            Self {
                encoder: Handle::from_raw(r.u64()?),
            },
        )
    }
}

/// On the wire a [`CreateEncoderRequest`] is `codec` in 4 bytes, then `width` in 4
/// bytes, then `height` in 4 bytes, and nothing else.
pub proof fn law_create_encoder_request_layout(m: CreateEncoderRequest)
    ensures
        m.bytes().len() == 12,
        bytes::u32_at(m.bytes(), 0) == m.codec,
        bytes::u32_at(m.bytes(), 4) == m.width,
        bytes::u32_at(m.bytes(), 8) == m.height,
{
    m.law_whole();
}

/// On the wire a [`CreateEncoderResponse`] is `encoder` in 8 bytes, and nothing
/// else.
pub proof fn law_create_encoder_response_layout(m: CreateEncoderResponse)
    ensures
        m.bytes().len() == 8,
        bytes::u64_at(m.bytes(), 0) == m.encoder@,
{
    m.law_whole();
}

/// On the wire an [`EncodeFrameRequest`] is `encoder` in 8 bytes, then `frame_len`
/// in 4 bytes, and nothing else.
pub proof fn law_encode_frame_request_layout(m: EncodeFrameRequest)
    ensures
        m.bytes().len() == 12,
        bytes::u64_at(m.bytes(), 0) == m.encoder@,
        bytes::u32_at(m.bytes(), 8) == m.frame_len,
{
    m.law_whole();
}

/// On the wire an [`EncodeFrameResponse`] is `packet_len` in 4 bytes, and nothing
/// else.
pub proof fn law_encode_frame_response_layout(m: EncodeFrameResponse)
    ensures
        m.bytes().len() == 4,
        bytes::u32_at(m.bytes(), 0) == m.packet_len,
{
    m.law_whole();
}

/// On the wire a [`DestroyEncoderRequest`] is `encoder` in 8 bytes, and nothing
/// else.
pub proof fn law_destroy_encoder_request_layout(m: DestroyEncoderRequest)
    ensures
        m.bytes().len() == 8,
        bytes::u64_at(m.bytes(), 0) == m.encoder@,
{
    m.law_whole();
}

} // verus!
