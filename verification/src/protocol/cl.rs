//! OpenCL request/response body encoders and decoders.
//!
//! These match the canonical wire bodies for the OpenCL opcodes in [`cl_op`](super::cl_op).
//! Every multi-byte field is little-endian and a [`Handle`] is carried as its
//! raw 64-bit value (see [`Handle::raw`]). Short buffers decode to
//! [`ProtocolError::UnexpectedEof`].
//!
//! [`cl_op::CREATE_CONTEXT`](super::cl_op::CREATE_CONTEXT) takes an empty
//! request body, and [`cl_op::RELEASE_BUFFER`](super::cl_op::RELEASE_BUFFER)
//! replies with an empty (ack) body, so neither needs a struct here.
use vstd::prelude::*;

use super::bytes;
use super::handle::Handle;
use super::wire::{CanonicalWire, Wire};
use super::ProtocolError;

verus! {

broadcast use {super::bytes::group_le_len, super::handle::group_handle_raw};

/// Response body for
/// [`cl_op::CREATE_CONTEXT`](super::cl_op::CREATE_CONTEXT).
///
/// The request body is empty, so there is no request struct.
#[derive(Debug, Clone, Copy, PartialEq, Eq)]
pub struct CreateContextResponse {
    /// Handle naming the newly created context.
    pub context: Handle,
}

impl Wire for CreateContextResponse {
    open spec fn bytes(&self) -> Seq<u8> {
        bytes::le_u64(self.context@)
    }

    open spec fn parse(s: Seq<u8>) -> Result<Self, ProtocolError> {
        if s.len() < 8 {
            Err(ProtocolError::UnexpectedEof)
        } else {
            Ok(
                CreateContextResponse {
                    context: Handle::of(bytes::u64_at(s, 0)),
                },
            )
        }
    }

    proof fn law_round_trip(&self, rest: Seq<u8>) {
        let s = self.bytes() + rest;
        bytes::lemma_u64_at(s, 0, self.context@);
    }

    proof fn law_truncated(&self, n: int) {
    }
}

impl CanonicalWire for CreateContextResponse {
    proof fn law_canonical(s: Seq<u8>) {
        if s.len() >= 8 {
            bytes::lemma_le_u64(s, 0);
            assert(s.subrange(0, 8) =~= s.take(8));
        }
    }

    proof fn law_refusal(s: Seq<u8>) {
    }
}

impl CreateContextResponse {
    /// Append the encoded body to `out`.
    pub fn encode(&self, out: &mut Vec<u8>)
        ensures
            final(out)@ == old(out)@ + self.bytes(),
    {
        bytes::put_u64(out, self.context.raw());
    }

    /// Decode a body.
    pub fn decode(buf: &[u8]) -> (r: Result<Self, ProtocolError>)
        ensures
            r == Self::parse(buf@),
    {
        let mut r = bytes::Reader::new(buf);
        Ok(
            Self {
                context: Handle::from_raw(r.u64()?),
            },
        )
    }
}

/// Request body for [`cl_op::CREATE_BUFFER`](super::cl_op::CREATE_BUFFER).
#[derive(Debug, Clone, Copy, PartialEq, Eq)]
pub struct CreateBufferRequest {
    /// Handle naming the context the buffer is created in.
    pub context: Handle,
    /// Size of the buffer in bytes.
    pub size: u64,
}

impl Wire for CreateBufferRequest {
    open spec fn bytes(&self) -> Seq<u8> {
        bytes::le_u64(self.context@) + bytes::le_u64(self.size)
    }

    open spec fn parse(s: Seq<u8>) -> Result<Self, ProtocolError> {
        if s.len() < 16 {
            Err(ProtocolError::UnexpectedEof)
        } else {
            Ok(
                CreateBufferRequest {
                    context: Handle::of(bytes::u64_at(s, 0)),
                    size: bytes::u64_at(s, 8),
                },
            )
        }
    }

    proof fn law_round_trip(&self, rest: Seq<u8>) {
        let s = self.bytes() + rest;
        bytes::lemma_u64_at(s, 0, self.context@);
        bytes::lemma_u64_at(s, 8, self.size);
    }

    proof fn law_truncated(&self, n: int) {
    }
}

impl CanonicalWire for CreateBufferRequest {
    proof fn law_canonical(s: Seq<u8>) {
        if s.len() >= 16 {
            bytes::lemma_le_u64(s, 0);
            bytes::lemma_le_u64(s, 8);
            assert(s.subrange(0, 8) + s.subrange(8, 16) =~= s.take(16));
        }
    }

    proof fn law_refusal(s: Seq<u8>) {
    }
}

impl CreateBufferRequest {
    /// Append the encoded body to `out`.
    pub fn encode(&self, out: &mut Vec<u8>)
        ensures
            final(out)@ == old(out)@ + self.bytes(),
    {
        bytes::put_u64(out, self.context.raw());
        bytes::put_u64(out, self.size);
    }

    /// Decode a body.
    pub fn decode(buf: &[u8]) -> (r: Result<Self, ProtocolError>)
        ensures
            r == Self::parse(buf@),
    {
        let mut r = bytes::Reader::new(buf);
        Ok(
            Self {
                context: Handle::from_raw(r.u64()?),
                size: r.u64()?,
            },
        )
    }
}

/// Response body for [`cl_op::CREATE_BUFFER`](super::cl_op::CREATE_BUFFER).
#[derive(Debug, Clone, Copy, PartialEq, Eq)]
pub struct CreateBufferResponse {
    /// Handle naming the newly created memory buffer.
    pub mem: Handle,
}

impl Wire for CreateBufferResponse {
    open spec fn bytes(&self) -> Seq<u8> {
        bytes::le_u64(self.mem@)
    }

    open spec fn parse(s: Seq<u8>) -> Result<Self, ProtocolError> {
        if s.len() < 8 {
            Err(ProtocolError::UnexpectedEof)
        } else {
            Ok(
                CreateBufferResponse {
                    mem: Handle::of(bytes::u64_at(s, 0)),
                },
            )
        }
    }

    proof fn law_round_trip(&self, rest: Seq<u8>) {
        let s = self.bytes() + rest;
        bytes::lemma_u64_at(s, 0, self.mem@);
    }

    proof fn law_truncated(&self, n: int) {
    }
}

impl CanonicalWire for CreateBufferResponse {
    proof fn law_canonical(s: Seq<u8>) {
        if s.len() >= 8 {
            bytes::lemma_le_u64(s, 0);
            assert(s.subrange(0, 8) =~= s.take(8));
        }
    }

    proof fn law_refusal(s: Seq<u8>) {
    }
}

impl CreateBufferResponse {
    /// Append the encoded body to `out`.
    pub fn encode(&self, out: &mut Vec<u8>)
        ensures
            final(out)@ == old(out)@ + self.bytes(),
    {
        bytes::put_u64(out, self.mem.raw());
    }

    /// Decode a body.
    pub fn decode(buf: &[u8]) -> (r: Result<Self, ProtocolError>)
        ensures
            r == Self::parse(buf@),
    {
        let mut r = bytes::Reader::new(buf);
        Ok(
            Self {
                mem: Handle::from_raw(r.u64()?),
            },
        )
    }
}

/// Request body for [`cl_op::RELEASE_BUFFER`](super::cl_op::RELEASE_BUFFER).
///
/// The reply is an empty (ack) body, so there is no response struct.
#[derive(Debug, Clone, Copy, PartialEq, Eq)]
pub struct ReleaseBufferRequest {
    /// Handle naming the memory buffer being released.
    pub mem: Handle,
}

impl Wire for ReleaseBufferRequest {
    open spec fn bytes(&self) -> Seq<u8> {
        bytes::le_u64(self.mem@)
    }

    open spec fn parse(s: Seq<u8>) -> Result<Self, ProtocolError> {
        if s.len() < 8 {
            Err(ProtocolError::UnexpectedEof)
        } else {
            Ok(
                ReleaseBufferRequest {
                    mem: Handle::of(bytes::u64_at(s, 0)),
                },
            )
        }
    }

    proof fn law_round_trip(&self, rest: Seq<u8>) {
        let s = self.bytes() + rest;
        bytes::lemma_u64_at(s, 0, self.mem@);
    }

    proof fn law_truncated(&self, n: int) {
    }
}

impl CanonicalWire for ReleaseBufferRequest {
    proof fn law_canonical(s: Seq<u8>) {
        if s.len() >= 8 {
            bytes::lemma_le_u64(s, 0);
            assert(s.subrange(0, 8) =~= s.take(8));
        }
    }

    proof fn law_refusal(s: Seq<u8>) {
    }
}

impl ReleaseBufferRequest {
    /// Append the encoded body to `out`.
    pub fn encode(&self, out: &mut Vec<u8>)
        ensures
            final(out)@ == old(out)@ + self.bytes(),
    {
        bytes::put_u64(out, self.mem.raw());
    }

    /// Decode a body.
    pub fn decode(buf: &[u8]) -> (r: Result<Self, ProtocolError>)
        ensures
            r == Self::parse(buf@),
    {
        let mut r = bytes::Reader::new(buf);
        Ok(
            Self {
                mem: Handle::from_raw(r.u64()?),
            },
        )
    }
}

/// On the wire a [`CreateContextResponse`] is `context` in 8 bytes, and nothing
/// else.
pub proof fn law_create_context_response_layout(m: CreateContextResponse)
    ensures
        m.bytes().len() == 8,
        bytes::u64_at(m.bytes(), 0) == m.context@,
{
    m.law_whole();
}

/// On the wire a [`CreateBufferRequest`] is `context` in 8 bytes, then `size` in 8
/// bytes, and nothing else.
pub proof fn law_create_buffer_request_layout(m: CreateBufferRequest)
    ensures
        m.bytes().len() == 16,
        bytes::u64_at(m.bytes(), 0) == m.context@,
        bytes::u64_at(m.bytes(), 8) == m.size,
{
    m.law_whole();
}

/// On the wire a [`CreateBufferResponse`] is `mem` in 8 bytes, and nothing else.
pub proof fn law_create_buffer_response_layout(m: CreateBufferResponse)
    ensures
        m.bytes().len() == 8,
        bytes::u64_at(m.bytes(), 0) == m.mem@,
{
    m.law_whole();
}

/// On the wire a [`ReleaseBufferRequest`] is `mem` in 8 bytes, and nothing else.
pub proof fn law_release_buffer_request_layout(m: ReleaseBufferRequest)
    ensures
        m.bytes().len() == 8,
        bytes::u64_at(m.bytes(), 0) == m.mem@,
{
    m.law_whole();
}

} // verus!
