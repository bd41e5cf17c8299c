//! Level Zero request/response body encoders and decoders.
//!
//! These match the canonical wire bodies for the Level Zero opcodes in
//! [`l0_op`](super::l0_op). Every multi-byte field is little-endian and a [`Handle`] is
//! carried as its raw 64-bit value (see [`Handle::raw`]). Short buffers decode
//! to [`ProtocolError::UnexpectedEof`].
//!
//! [`l0_op::CONTEXT_CREATE`](super::l0_op::CONTEXT_CREATE) takes an empty
//! request body, and [`l0_op::MEM_FREE`](super::l0_op::MEM_FREE) replies with
//! an empty (ack) body, so neither needs a struct here.
use vstd::prelude::*;

use super::bytes;
use super::handle::Handle;
use super::wire::{CanonicalWire, Wire};
use super::ProtocolError;

verus! {

broadcast use {super::bytes::group_le_len, super::handle::group_handle_raw};

/// Response body for
/// [`l0_op::CONTEXT_CREATE`](super::l0_op::CONTEXT_CREATE).
///
/// The request body is empty, so there is no request struct.
#[derive(Debug, Clone, Copy, PartialEq, Eq)]
pub struct ContextCreateResponse {
    /// Handle naming the newly created context.
    pub context: Handle,
}

impl Wire for ContextCreateResponse {
    open spec fn bytes(&self) -> Seq<u8> {
        bytes::le_u64(self.context@)
    }

    open spec fn parse(s: Seq<u8>) -> Result<Self, ProtocolError> {
        if s.len() < 8 {
            Err(ProtocolError::UnexpectedEof)
        } else {
            Ok(
                ContextCreateResponse {
                    context: Handle::of(bytes::u64_at(s, 0)),
                },
            )
        }
    }

    proof fn law_round_trip(&self, rest: Seq<u8>) {
        let s = self.bytes() + rest;
        bytes::lemma_u64_at(s, 0, self.context@);
    }

    proof fn law_truncated(&self, n: int) {
    }
}

impl CanonicalWire for ContextCreateResponse {
    proof fn law_canonical(s: Seq<u8>) {
        if s.len() >= 8 {
            bytes::lemma_le_u64(s, 0);
            assert(s.subrange(0, 8) =~= s.take(8));
        }
    }

    proof fn law_refusal(s: Seq<u8>) {
    }
}

impl ContextCreateResponse {
    /// Append the encoded body to `out`.
    pub fn encode(&self, out: &mut Vec<u8>)
        ensures
            final(out)@ == old(out)@ + self.bytes(),
    {
        bytes::put_u64(out, self.context.raw());
    }

    /// Decode a body.
    pub fn decode(buf: &[u8]) -> (r: Result<Self, ProtocolError>)
        ensures
            r == Self::parse(buf@),
    {
        let mut r = bytes::Reader::new(buf);
        Ok(
            Self {
                context: Handle::from_raw(r.u64()?),
            },
        )
    }
}

/// Request body for
/// [`l0_op::MEM_ALLOC_DEVICE`](super::l0_op::MEM_ALLOC_DEVICE).
#[derive(Debug, Clone, Copy, PartialEq, Eq)]
pub struct MemAllocDeviceRequest {
    /// Handle naming the context the memory is allocated in.
    pub context: Handle,
    /// Size of the allocation in bytes.
    pub size: u64,
}

impl Wire for MemAllocDeviceRequest {
    open spec fn bytes(&self) -> Seq<u8> {
        bytes::le_u64(self.context@) + bytes::le_u64(self.size)
    }

    open spec fn parse(s: Seq<u8>) -> Result<Self, ProtocolError> {
        if s.len() < 16 {
            Err(ProtocolError::UnexpectedEof)
        } else {
            Ok(
                MemAllocDeviceRequest {
                    context: Handle::of(bytes::u64_at(s, 0)),
                    size: bytes::u64_at(s, 8),
                },
            )
        }
    }

    proof fn law_round_trip(&self, rest: Seq<u8>) {
        let s = self.bytes() + rest;
        bytes::lemma_u64_at(s, 0, self.context@);
        bytes::lemma_u64_at(s, 8, self.size);
    }

    proof fn law_truncated(&self, n: int) {
    }
}

impl CanonicalWire for MemAllocDeviceRequest {
    proof fn law_canonical(s: Seq<u8>) {
        if s.len() >= 16 {
            bytes::lemma_le_u64(s, 0);
            bytes::lemma_le_u64(s, 8);
            assert(s.subrange(0, 8) + s.subrange(8, 16) =~= s.take(16));
        }
    }

    proof fn law_refusal(s: Seq<u8>) {
    }
}

impl MemAllocDeviceRequest {
    /// Append the encoded body to `out`.
    pub fn encode(&self, out: &mut Vec<u8>)
        ensures
            final(out)@ == old(out)@ + self.bytes(),
    {
        bytes::put_u64(out, self.context.raw());
        bytes::put_u64(out, self.size);
    }

    /// Decode a body.
    pub fn decode(buf: &[u8]) -> (r: Result<Self, ProtocolError>)
        ensures
            r == Self::parse(buf@),
    {
        let mut r = bytes::Reader::new(buf);
        Ok(
            Self {
                context: Handle::from_raw(r.u64()?),
                size: r.u64()?,
            },
        )
    }
}

/// Response body for
/// [`l0_op::MEM_ALLOC_DEVICE`](super::l0_op::MEM_ALLOC_DEVICE).
#[derive(Debug, Clone, Copy, PartialEq, Eq)]
pub struct MemAllocDeviceResponse {
    /// Handle naming the newly allocated device pointer.
    pub ptr: Handle,
}

impl Wire for MemAllocDeviceResponse {
    open spec fn bytes(&self) -> Seq<u8> {
        bytes::le_u64(self.ptr@)
    }

    open spec fn parse(s: Seq<u8>) -> Result<Self, ProtocolError> {
        if s.len() < 8 {
            Err(ProtocolError::UnexpectedEof)
        } else {
            Ok(
                MemAllocDeviceResponse {
                    ptr: Handle::of(bytes::u64_at(s, 0)),
                },
            )
        }
    }

    proof fn law_round_trip(&self, rest: Seq<u8>) {
        let s = self.bytes() + rest;
        bytes::lemma_u64_at(s, 0, self.ptr@);
    }

    proof fn law_truncated(&self, n: int) {
    }
}

impl CanonicalWire for MemAllocDeviceResponse {
    proof fn law_canonical(s: Seq<u8>) {
        if s.len() >= 8 {
            bytes::lemma_le_u64(s, 0);
            assert(s.subrange(0, 8) =~= s.take(8));
        }
    }

    proof fn law_refusal(s: Seq<u8>) {
    }
}

impl MemAllocDeviceResponse {
    /// Append the encoded body to `out`.
    pub fn encode(&self, out: &mut Vec<u8>)
        ensures
            final(out)@ == old(out)@ + self.bytes(),
    {
        bytes::put_u64(out, self.ptr.raw());
    }

    /// Decode a body.
    pub fn decode(buf: &[u8]) -> (r: Result<Self, ProtocolError>)
        ensures
            r == Self::parse(buf@),
    {
        let mut r = bytes::Reader::new(buf);
        Ok(
            Self {
                ptr: Handle::from_raw(r.u64()?),
            },
        )
    }
}

/// Request body for [`l0_op::MEM_FREE`](super::l0_op::MEM_FREE).
///
/// The reply is an empty (ack) body, so there is no response struct.
#[derive(Debug, Clone, Copy, PartialEq, Eq)]
pub struct MemFreeRequest {
    /// Handle naming the device pointer being freed.
    pub ptr: Handle,
}

impl Wire for MemFreeRequest {
    open spec fn bytes(&self) -> Seq<u8> {
        bytes::le_u64(self.ptr@)
    }

    open spec fn parse(s: Seq<u8>) -> Result<Self, ProtocolError> {
        if s.len() < 8 {
            Err(ProtocolError::UnexpectedEof)
        } else {
            Ok(
                MemFreeRequest {
                    ptr: Handle::of(bytes::u64_at(s, 0)),
                },
            )
        }
    }

    proof fn law_round_trip(&self, rest: Seq<u8>) {
        let s = self.bytes() + rest;
        bytes::lemma_u64_at(s, 0, self.ptr@);
    }

    proof fn law_truncated(&self, n: int) {
    }
}

impl CanonicalWire for MemFreeRequest {
    proof fn law_canonical(s: Seq<u8>) {
        if s.len() >= 8 {
            bytes::lemma_le_u64(s, 0);
            assert(s.subrange(0, 8) =~= s.take(8));
        }
    }

    proof fn law_refusal(s: Seq<u8>) {
    }
}

impl MemFreeRequest {
    /// Append the encoded body to `out`.
    pub fn encode(&self, out: &mut Vec<u8>)
        ensures
            final(out)@ == old(out)@ + self.bytes(),
    {
        bytes::put_u64(out, self.ptr.raw());
    }

    /// Decode a body.
    pub fn decode(buf: &[u8]) -> (r: Result<Self, ProtocolError>)
        ensures
            r == Self::parse(buf@),
    {
        let mut r = bytes::Reader::new(buf);
        Ok(
            Self {
                ptr: Handle::from_raw(r.u64()?),
            },
        )
    }
}

/// On the wire a [`ContextCreateResponse`] is `context` in 8 bytes, and nothing
/// else.
pub proof fn law_context_create_response_layout(m: ContextCreateResponse)
    ensures
        m.bytes().len() == 8,
        bytes::u64_at(m.bytes(), 0) == m.context@,
{
    m.law_whole();
}

/// On the wire a [`MemAllocDeviceRequest`] is `context` in 8 bytes, then `size` in
/// 8 bytes, and nothing else.
pub proof fn law_mem_alloc_device_request_layout(m: MemAllocDeviceRequest)
    ensures
        m.bytes().len() == 16,
        bytes::u64_at(m.bytes(), 0) == m.context@,
        bytes::u64_at(m.bytes(), 8) == m.size,
{
    m.law_whole();
}

/// On the wire a [`MemAllocDeviceResponse`] is `ptr` in 8 bytes, and nothing else.
pub proof fn law_mem_alloc_device_response_layout(m: MemAllocDeviceResponse)
    ensures
        m.bytes().len() == 8,
        bytes::u64_at(m.bytes(), 0) == m.ptr@,
{
    m.law_whole();
}

/// On the wire a [`MemFreeRequest`] is `ptr` in 8 bytes, and nothing else.
pub proof fn law_mem_free_request_layout(m: MemFreeRequest)
    ensures
        m.bytes().len() == 8,
        bytes::u64_at(m.bytes(), 0) == m.ptr@,
{
    m.law_whole();
}

} // verus!
