//! CUDA request/response body encoders and decoders.
//!
//! These match the canonical wire bodies for the CUDA opcodes in [`cuda_op`](super::cuda_op).
//! Every multi-byte field is little-endian and a [`Handle`] is carried as its
//! raw 64-bit value (see [`Handle::raw`]). Short buffers decode to
//! [`ProtocolError::UnexpectedEof`].
//!
//! [`cuda_op::MEM_FREE`](super::cuda_op::MEM_FREE) replies with an empty (ack)
//! body, so its response needs no struct here.
use vstd::prelude::*;

use super::bytes;
use super::handle::Handle;
use super::wire::{CanonicalWire, Wire};
use super::ProtocolError;

verus! {

broadcast use {super::bytes::group_le_len, super::handle::group_handle_raw};

/// Request body for [`cuda_op::CTX_CREATE`](super::cuda_op::CTX_CREATE).
#[derive(Debug, Clone, Copy, PartialEq, Eq)]
pub struct CtxCreateRequest {
    /// Ordinal of the device the context is created on.
    pub device_ordinal: u32,
}

impl Wire for CtxCreateRequest {
    open spec fn bytes(&self) -> Seq<u8> {
        bytes::le_u32(self.device_ordinal)
    }

    open spec fn parse(s: Seq<u8>) -> Result<Self, ProtocolError> {
        if s.len() < 4 {
            Err(ProtocolError::UnexpectedEof)
        } else {
            Ok(
                CtxCreateRequest {
                    device_ordinal: bytes::u32_at(s, 0),
                },
            )
        }
    }

    proof fn law_round_trip(&self, rest: Seq<u8>) {
        let s = self.bytes() + rest;
        bytes::lemma_u32_at(s, 0, self.device_ordinal);
    }

    proof fn law_truncated(&self, n: int) {
    }
}

impl CanonicalWire for CtxCreateRequest {
    proof fn law_canonical(s: Seq<u8>) {
        if s.len() >= 4 {
            bytes::lemma_le_u32(s, 0);
            assert(s.subrange(0, 4) =~= s.take(4));
        }
    }

    proof fn law_refusal(s: Seq<u8>) {
    }
}

impl CtxCreateRequest {
    /// Append the encoded body to `out`.
    pub fn encode(&self, out: &mut Vec<u8>)
        ensures
            final(out)@ == old(out)@ + self.bytes(),
    {
        bytes::put_u32(out, self.device_ordinal);
    }

    /// Decode a body.
    pub fn decode(buf: &[u8]) -> (r: Result<Self, ProtocolError>)
        ensures
            r == Self::parse(buf@),
    {
        let mut r = bytes::Reader::new(buf);
        Ok(
            Self {
                device_ordinal: r.u32()?,
            },
        )
    }
}

/// Response body for [`cuda_op::CTX_CREATE`](super::cuda_op::CTX_CREATE).
#[derive(Debug, Clone, Copy, PartialEq, Eq)]
pub struct CtxCreateResponse {
    /// Handle naming the newly created context.
    pub context: Handle,
}

impl Wire for CtxCreateResponse {
    open spec fn bytes(&self) -> Seq<u8> {
        bytes::le_u64(self.context@)
    }

    open spec fn parse(s: Seq<u8>) -> Result<Self, ProtocolError> {
        if s.len() < 8 {
            Err(ProtocolError::UnexpectedEof)
        } else {
            Ok(
                CtxCreateResponse {
                    context: Handle::of(bytes::u64_at(s, 0)),
                },
            )
        }
    }

    proof fn law_round_trip(&self, rest: Seq<u8>) {
        let s = self.bytes() + rest;
        bytes::lemma_u64_at(s, 0, self.context@);
    }

    proof fn law_truncated(&self, n: int) {
    }
}

impl CanonicalWire for CtxCreateResponse {
    proof fn law_canonical(s: Seq<u8>) {
        if s.len() >= 8 {
            bytes::lemma_le_u64(s, 0);
            assert(s.subrange(0, 8) =~= s.take(8));
        }
    }

    proof fn law_refusal(s: Seq<u8>) {
    }
}

impl CtxCreateResponse {
    /// Append the encoded body to `out`.
    pub fn encode(&self, out: &mut Vec<u8>)
        ensures
            final(out)@ == old(out)@ + self.bytes(),
    {
        bytes::put_u64(out, self.context.raw());
    }

    /// Decode a body.
    pub fn decode(buf: &[u8]) -> (r: Result<Self, ProtocolError>)
        ensures
            r == Self::parse(buf@),
    {
        let mut r = bytes::Reader::new(buf);
        Ok(
            Self {
                context: Handle::from_raw(r.u64()?),
            },
        )
    }
}

/// Request body for [`cuda_op::MEM_ALLOC`](super::cuda_op::MEM_ALLOC).
#[derive(Debug, Clone, Copy, PartialEq, Eq)]
pub struct MemAllocRequest {
    /// Handle naming the context the memory is allocated in.
    pub context: Handle,
    /// Size of the allocation in bytes.
    pub size: u64,
}

impl Wire for MemAllocRequest {
    open spec fn bytes(&self) -> Seq<u8> {
        bytes::le_u64(self.context@) + bytes::le_u64(self.size)
    }

    open spec fn parse(s: Seq<u8>) -> Result<Self, ProtocolError> {
        if s.len() < 16 {
            Err(ProtocolError::UnexpectedEof)
        } else {
            Ok(
                MemAllocRequest {
                    context: Handle::of(bytes::u64_at(s, 0)),
                    size: bytes::u64_at(s, 8),
                },
            )
        }
    }

    proof fn law_round_trip(&self, rest: Seq<u8>) {
        let s = self.bytes() + rest;
        bytes::lemma_u64_at(s, 0, self.context@);
        bytes::lemma_u64_at(s, 8, self.size);
    }

    proof fn law_truncated(&self, n: int) {
    }
}

impl CanonicalWire for MemAllocRequest {
    proof fn law_canonical(s: Seq<u8>) {
        if s.len() >= 16 {
            bytes::lemma_le_u64(s, 0);
            bytes::lemma_le_u64(s, 8);
            assert(s.subrange(0, 8) + s.subrange(8, 16) =~= s.take(16));
        }
    }

    proof fn law_refusal(s: Seq<u8>) {
    }
}

impl MemAllocRequest {
    /// Append the encoded body to `out`.
    pub fn encode(&self, out: &mut Vec<u8>)
        ensures
            final(out)@ == old(out)@ + self.bytes(),
    {
        bytes::put_u64(out, self.context.raw());
        bytes::put_u64(out, self.size);
    }

    /// Decode a body.
    pub fn decode(buf: &[u8]) -> (r: Result<Self, ProtocolError>)
        ensures
            r == Self::parse(buf@),
    {
        let mut r = bytes::Reader::new(buf);
        Ok(
            Self {
                context: Handle::from_raw(r.u64()?),
                size: r.u64()?,
            },
        )
    }
}

/// Response body for [`cuda_op::MEM_ALLOC`](super::cuda_op::MEM_ALLOC).
#[derive(Debug, Clone, Copy, PartialEq, Eq)]
pub struct MemAllocResponse {
    /// Handle naming the newly allocated device pointer.
    pub dptr: Handle,
}

impl Wire for MemAllocResponse {
    open spec fn bytes(&self) -> Seq<u8> {
        bytes::le_u64(self.dptr@)
    }

    open spec fn parse(s: Seq<u8>) -> Result<Self, ProtocolError> {
        if s.len() < 8 {
            Err(ProtocolError::UnexpectedEof)
        } else {
            Ok(
                MemAllocResponse {
                    dptr: Handle::of(bytes::u64_at(s, 0)),
                },
            )
        }
    }

    proof fn law_round_trip(&self, rest: Seq<u8>) {
        let s = self.bytes() + rest;
        bytes::lemma_u64_at(s, 0, self.dptr@);
    }

    proof fn law_truncated(&self, n: int) {
    }
}

impl CanonicalWire for MemAllocResponse {
    proof fn law_canonical(s: Seq<u8>) {
        if s.len() >= 8 {
            bytes::lemma_le_u64(s, 0);
            assert(s.subrange(0, 8) =~= s.take(8));
        }
    }

    proof fn law_refusal(s: Seq<u8>) {
    }
}

impl MemAllocResponse {
    /// Append the encoded body to `out`.
    pub fn encode(&self, out: &mut Vec<u8>)
        ensures
            final(out)@ == old(out)@ + self.bytes(),
    {
        bytes::put_u64(out, self.dptr.raw());
    }

    /// Decode a body.
    pub fn decode(buf: &[u8]) -> (r: Result<Self, ProtocolError>)
        ensures
            r == Self::parse(buf@),
    {
        let mut r = bytes::Reader::new(buf);
        Ok(
            Self {
                dptr: Handle::from_raw(r.u64()?),
            },
        )
    }
}

/// Request body for [`cuda_op::MEM_FREE`](super::cuda_op::MEM_FREE).
///
/// The reply is an empty (ack) body, so there is no response struct.
#[derive(Debug, Clone, Copy, PartialEq, Eq)]
pub struct MemFreeRequest {
    /// Handle naming the device pointer being freed.
    pub dptr: Handle,
}

impl Wire for MemFreeRequest {
    open spec fn bytes(&self) -> Seq<u8> {
        bytes::le_u64(self.dptr@)
    }

    open spec fn parse(s: Seq<u8>) -> Result<Self, ProtocolError> {
        if s.len() < 8 {
            Err(ProtocolError::UnexpectedEof)
        } else {
            Ok(
                MemFreeRequest {
                    dptr: Handle::of(bytes::u64_at(s, 0)),
                },
            )
        }
    }

    proof fn law_round_trip(&self, rest: Seq<u8>) {
        let s = self.bytes() + rest;
        bytes::lemma_u64_at(s, 0, self.dptr@);
    }

    proof fn law_truncated(&self, n: int) {
    }
}

impl CanonicalWire for MemFreeRequest {
    proof fn law_canonical(s: Seq<u8>) {
        if s.len() >= 8 {
            bytes::lemma_le_u64(s, 0);
            assert(s.subrange(0, 8) =~= s.take(8));
        }
    }

    proof fn law_refusal(s: Seq<u8>) {
    }
}

impl MemFreeRequest {
    /// Append the encoded body to `out`.
    pub fn encode(&self, out: &mut Vec<u8>)
        ensures
            final(out)@ == old(out)@ + self.bytes(),
    {
        bytes::put_u64(out, self.dptr.raw());
    }

    /// Decode a body.
    pub fn decode(buf: &[u8]) -> (r: Result<Self, ProtocolError>)
        ensures
            r == Self::parse(buf@),
    {
        let mut r = bytes::Reader::new(buf);
        Ok(
            Self {
                dptr: Handle::from_raw(r.u64()?),
            },
        )
    }
}

/// On the wire a [`CtxCreateRequest`] is `device_ordinal` in 4 bytes, and nothing
/// else.
pub proof fn law_ctx_create_request_layout(m: CtxCreateRequest)
    ensures
        m.bytes().len() == 4,
        bytes::u32_at(m.bytes(), 0) == m.device_ordinal,
{
    m.law_whole();
}

/// On the wire a [`CtxCreateResponse`] is `context` in 8 bytes, and nothing else.
pub proof fn law_ctx_create_response_layout(m: CtxCreateResponse)
    ensures
        m.bytes().len() == 8,
        bytes::u64_at(m.bytes(), 0) == m.context@,
{
    m.law_whole();
}

/// On the wire a [`MemAllocRequest`] is `context` in 8 bytes, then `size` in 8
/// bytes, and nothing else.
pub proof fn law_mem_alloc_request_layout(m: MemAllocRequest)
    ensures
        m.bytes().len() == 16,
        bytes::u64_at(m.bytes(), 0) == m.context@,
        bytes::u64_at(m.bytes(), 8) == m.size,
{
    m.law_whole();
}

/// On the wire a [`MemAllocResponse`] is `dptr` in 8 bytes, and nothing else.
pub proof fn law_mem_alloc_response_layout(m: MemAllocResponse)
    ensures
        m.bytes().len() == 8,
        bytes::u64_at(m.bytes(), 0) == m.dptr@,
{
    m.law_whole();
}

/// On the wire a [`MemFreeRequest`] is `dptr` in 8 bytes, and nothing else.
pub proof fn law_mem_free_request_layout(m: MemFreeRequest)
    ensures
        m.bytes().len() == 8,
        bytes::u64_at(m.bytes(), 0) == m.dptr@,
{
    m.law_whole();
}

} // verus!
