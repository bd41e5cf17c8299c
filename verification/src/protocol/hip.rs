//! HIP request/response body encoders and decoders.
//!
//! These match the canonical wire bodies for the HIP opcodes in [`hip_op`](super::hip_op).
//! Every multi-byte field is little-endian and a [`Handle`] is carried as its
//! raw 64-bit value (see [`Handle::raw`]). Short buffers decode to
//! [`ProtocolError::UnexpectedEof`].
//!
//! [`hip_op::FREE`](super::hip_op::FREE) replies with an empty (ack) body, and
//! [`hip_op::STREAM_CREATE`](super::hip_op::STREAM_CREATE) takes an empty
//! request body, so neither needs a struct here.
use vstd::prelude::*;

use super::bytes;
use super::handle::Handle;
use super::wire::{CanonicalWire, Wire};
use super::ProtocolError;

verus! {

broadcast use {super::bytes::group_le_len, super::handle::group_handle_raw};

/// Request body for [`hip_op::MALLOC`](super::hip_op::MALLOC).
#[derive(Debug, Clone, Copy, PartialEq, Eq)]
pub struct MallocRequest {
    /// Size of the allocation in bytes.
    pub size: u64,
}

impl Wire for MallocRequest {
    open spec fn bytes(&self) -> Seq<u8> {
        bytes::le_u64(self.size)
    }

    open spec fn parse(s: Seq<u8>) -> Result<Self, ProtocolError> {
        if s.len() < 8 {
            Err(ProtocolError::UnexpectedEof)
        } else {
            Ok(
                MallocRequest {
                    size: bytes::u64_at(s, 0),
                },
            )
        }
    }

    proof fn law_round_trip(&self, rest: Seq<u8>) {
        let s = self.bytes() + rest;
        bytes::lemma_u64_at(s, 0, self.size);
    }

    proof fn law_truncated(&self, n: int) {
    }
}

impl CanonicalWire for MallocRequest {
    proof fn law_canonical(s: Seq<u8>) {
        if s.len() >= 8 {
            bytes::lemma_le_u64(s, 0);
            assert(s.subrange(0, 8) =~= s.take(8));
        }
    }

    proof fn law_refusal(s: Seq<u8>) {
    }
}

impl MallocRequest {
    /// Append the encoded body to `out`.
    pub fn encode(&self, out: &mut Vec<u8>)
        ensures
            final(out)@ == old(out)@ + self.bytes(),
    {
        bytes::put_u64(out, self.size);
    }

    /// Decode a body.
    pub fn decode(buf: &[u8]) -> (r: Result<Self, ProtocolError>)
        ensures
            r == Self::parse(buf@),
    {
        let mut r = bytes::Reader::new(buf);
        Ok(
            Self {
                size: r.u64()?,
            },
        )
    }
}

/// Response body for [`hip_op::MALLOC`](super::hip_op::MALLOC).
#[derive(Debug, Clone, Copy, PartialEq, Eq)]
pub struct MallocResponse {
    /// Handle naming the newly allocated device pointer.
    pub dptr: Handle,
}

impl Wire for MallocResponse {
    open spec fn bytes(&self) -> Seq<u8> {
        bytes::le_u64(self.dptr@)
    }

    open spec fn parse(s: Seq<u8>) -> Result<Self, ProtocolError> {
        if s.len() < 8 {
            Err(ProtocolError::UnexpectedEof)
        } else {
            Ok(
                MallocResponse {
                    dptr: Handle::of(bytes::u64_at(s, 0)),
                },
            )
        }
    }

    proof fn law_round_trip(&self, rest: Seq<u8>) {
        let s = self.bytes() + rest;
        bytes::lemma_u64_at(s, 0, self.dptr@);
    }

    proof fn law_truncated(&self, n: int) {
    }
}

impl CanonicalWire for MallocResponse {
    proof fn law_canonical(s: Seq<u8>) {
        if s.len() >= 8 {
            bytes::lemma_le_u64(s, 0);
            assert(s.subrange(0, 8) =~= s.take(8));
        }
    }

    proof fn law_refusal(s: Seq<u8>) {
    }
}

impl MallocResponse {
    /// Append the encoded body to `out`.
    pub fn encode(&self, out: &mut Vec<u8>)
        ensures
            final(out)@ == old(out)@ + self.bytes(),
    {
        bytes::put_u64(out, self.dptr.raw());
    }

    /// Decode a body.
    pub fn decode(buf: &[u8]) -> (r: Result<Self, ProtocolError>)
        ensures
            r == Self::parse(buf@),
    {
        let mut r = bytes::Reader::new(buf);
        Ok(
            Self {
                dptr: Handle::from_raw(r.u64()?),
            },
        )
    }
}

/// Request body for [`hip_op::FREE`](super::hip_op::FREE).
///
/// The reply is an empty (ack) body, so there is no response struct.
#[derive(Debug, Clone, Copy, PartialEq, Eq)]
pub struct FreeRequest {
    /// Handle naming the device pointer being freed.
    pub dptr: Handle,
}

impl Wire for FreeRequest {
    open spec fn bytes(&self) -> Seq<u8> {
        bytes::le_u64(self.dptr@)
    }

    open spec fn parse(s: Seq<u8>) -> Result<Self, ProtocolError> {
        if s.len() < 8 {
            Err(ProtocolError::UnexpectedEof)
        } else {
            Ok(
                FreeRequest {
                    dptr: Handle::of(bytes::u64_at(s, 0)),
                },
            )
        }
    }

    proof fn law_round_trip(&self, rest: Seq<u8>) {
        let s = self.bytes() + rest;
        bytes::lemma_u64_at(s, 0, self.dptr@);
    }

    proof fn law_truncated(&self, n: int) {
    }
}

impl CanonicalWire for FreeRequest {
    proof fn law_canonical(s: Seq<u8>) {
        if s.len() >= 8 {
            bytes::lemma_le_u64(s, 0);
            assert(s.subrange(0, 8) =~= s.take(8));
        }
    }

    proof fn law_refusal(s: Seq<u8>) {
    }
}

impl FreeRequest {
    /// Append the encoded body to `out`.
    pub fn encode(&self, out: &mut Vec<u8>)
        ensures
            final(out)@ == old(out)@ + self.bytes(),
    {
        bytes::put_u64(out, self.dptr.raw());
    }

    /// Decode a body.
    pub fn decode(buf: &[u8]) -> (r: Result<Self, ProtocolError>)
        ensures
            r == Self::parse(buf@),
    {
        let mut r = bytes::Reader::new(buf);
        Ok(
            Self {
                dptr: Handle::from_raw(r.u64()?),
            },
        )
    }
}

/// Response body for
/// [`hip_op::STREAM_CREATE`](super::hip_op::STREAM_CREATE).
///
/// The request body is empty, so there is no request struct.
#[derive(Debug, Clone, Copy, PartialEq, Eq)]
pub struct StreamCreateResponse {
    /// Handle naming the newly created stream.
    pub stream: Handle,
}

impl Wire for StreamCreateResponse {
    open spec fn bytes(&self) -> Seq<u8> {
        bytes::le_u64(self.stream@)
    }

    open spec fn parse(s: Seq<u8>) -> Result<Self, ProtocolError> {
        if s.len() < 8 {
            Err(ProtocolError::UnexpectedEof)
        } else {
            Ok(
                StreamCreateResponse {
                    stream: Handle::of(bytes::u64_at(s, 0)),
                },
            )
        }
    }

    proof fn law_round_trip(&self, rest: Seq<u8>) {
        let s = self.bytes() + rest;
        bytes::lemma_u64_at(s, 0, self.stream@);
    }

    proof fn law_truncated(&self, n: int) {
    }
}

impl CanonicalWire for StreamCreateResponse {
    proof fn law_canonical(s: Seq<u8>) {
        if s.len() >= 8 {
            bytes::lemma_le_u64(s, 0);
            assert(s.subrange(0, 8) =~= s.take(8));
        }
    }

    proof fn law_refusal(s: Seq<u8>) {
    }
}

impl StreamCreateResponse {
    /// Append the encoded body to `out`.
    pub fn encode(&self, out: &mut Vec<u8>)
        ensures
            final(out)@ == old(out)@ + self.bytes(),
    {
        bytes::put_u64(out, self.stream.raw());
    }

    /// Decode a body.
    pub fn decode(buf: &[u8]) -> (r: Result<Self, ProtocolError>)
        ensures
            r == Self::parse(buf@),
    {
        let mut r = bytes::Reader::new(buf);
        Ok(
            Self {
                stream: Handle::from_raw(r.u64()?),
            },
        )
    }
}

/// On the wire a [`MallocRequest`] is `size` in 8 bytes, and nothing else.
pub proof fn law_malloc_request_layout(m: MallocRequest)
    ensures
        m.bytes().len() == 8,
        bytes::u64_at(m.bytes(), 0) == m.size,
{
    m.law_whole();
}

/// On the wire a [`MallocResponse`] is `dptr` in 8 bytes, and nothing else.
pub proof fn law_malloc_response_layout(m: MallocResponse)
    ensures
        m.bytes().len() == 8,
        bytes::u64_at(m.bytes(), 0) == m.dptr@,
{
    m.law_whole();
}

/// On the wire a [`FreeRequest`] is `dptr` in 8 bytes, and nothing else.
pub proof fn law_free_request_layout(m: FreeRequest)
    ensures
        m.bytes().len() == 8,
        bytes::u64_at(m.bytes(), 0) == m.dptr@,
{
    m.law_whole();
}

/// On the wire a [`StreamCreateResponse`] is `stream` in 8 bytes, and nothing else.
pub proof fn law_stream_create_response_layout(m: StreamCreateResponse)
    ensures
        m.bytes().len() == 8,
        bytes::u64_at(m.bytes(), 0) == m.stream@,
{
    m.law_whole();
}

} // verus!
