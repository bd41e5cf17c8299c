//! SYCL request/response body encoders and decoders.
//!
//! These match the canonical wire bodies for the SYCL opcodes in [`sycl_op`](super::sycl_op).
//! Every multi-byte field is little-endian and a [`Handle`] is carried as its
//! raw 64-bit value (see [`Handle::raw`]). Short buffers decode to
//! [`ProtocolError::UnexpectedEof`].
//!
//! [`sycl_op::QUEUE_CREATE`](super::sycl_op::QUEUE_CREATE) takes an empty
//! request body, and [`sycl_op::FREE`](super::sycl_op::FREE) replies with an
//! empty (ack) body, so neither needs a struct here.
use vstd::prelude::*;

use super::bytes;
use super::handle::Handle;
use super::wire::{CanonicalWire, Wire};
use super::ProtocolError;

verus! {

broadcast use {super::bytes::group_le_len, super::handle::group_handle_raw};

/// Response body for
/// [`sycl_op::QUEUE_CREATE`](super::sycl_op::QUEUE_CREATE).
///
/// The request body is empty, so there is no request struct.
#[derive(Debug, Clone, Copy, PartialEq, Eq)]
pub struct QueueCreateResponse {
    /// Handle naming the newly created queue.
    pub queue: Handle,
}

impl Wire for QueueCreateResponse {
    open spec fn bytes(&self) -> Seq<u8> {
        bytes::le_u64(self.queue@)
    }

    open spec fn parse(s: Seq<u8>) -> Result<Self, ProtocolError> {
        if s.len() < 8 {
            Err(ProtocolError::UnexpectedEof)
        } else {
            Ok(
                QueueCreateResponse {
                    queue: Handle::of(bytes::u64_at(s, 0)),
                },
            )
        }
    }

    proof fn law_round_trip(&self, rest: Seq<u8>) {
        let s = self.bytes() + rest;
        bytes::lemma_u64_at(s, 0, self.queue@);
    }

    proof fn law_truncated(&self, n: int) {
    }
}

impl CanonicalWire for QueueCreateResponse {
    proof fn law_canonical(s: Seq<u8>) {
        if s.len() >= 8 {
            bytes::lemma_le_u64(s, 0);
            assert(s.subrange(0, 8) =~= s.take(8));
        }
    }

    proof fn law_refusal(s: Seq<u8>) {
    }
}

impl QueueCreateResponse {
    /// Append the encoded body to `out`.
    pub fn encode(&self, out: &mut Vec<u8>)
        ensures
            final(out)@ == old(out)@ + self.bytes(),
    {
        bytes::put_u64(out, self.queue.raw());
    }

    /// Decode a body.
    pub fn decode(buf: &[u8]) -> (r: Result<Self, ProtocolError>)
        ensures
            r == Self::parse(buf@),
    {
        let mut r = bytes::Reader::new(buf);
        Ok(
            Self {
                queue: Handle::from_raw(r.u64()?),
            },
        )
    }
}

/// Request body for
/// [`sycl_op::MALLOC_DEVICE`](super::sycl_op::MALLOC_DEVICE).
#[derive(Debug, Clone, Copy, PartialEq, Eq)]
pub struct MallocDeviceRequest {
    /// Handle naming the queue the memory is allocated on.
    pub queue: Handle,
    /// Size of the allocation in bytes.
    pub size: u64,
}

impl Wire for MallocDeviceRequest {
    open spec fn bytes(&self) -> Seq<u8> {
        bytes::le_u64(self.queue@) + bytes::le_u64(self.size)
    }

    open spec fn parse(s: Seq<u8>) -> Result<Self, ProtocolError> {
        if s.len() < 16 {
            Err(ProtocolError::UnexpectedEof)
        } else {
            Ok(
                MallocDeviceRequest {
                    queue: Handle::of(bytes::u64_at(s, 0)),
                    size: bytes::u64_at(s, 8),
                },
            )
        }
    }

    proof fn law_round_trip(&self, rest: Seq<u8>) {
        let s = self.bytes() + rest;
        bytes::lemma_u64_at(s, 0, self.queue@);
        bytes::lemma_u64_at(s, 8, self.size);
    }

    proof fn law_truncated(&self, n: int) {
    }
}

impl CanonicalWire for MallocDeviceRequest {
    proof fn law_canonical(s: Seq<u8>) {
        if s.len() >= 16 {
            bytes::lemma_le_u64(s, 0);
            bytes::lemma_le_u64(s, 8);
            assert(s.subrange(0, 8) + s.subrange(8, 16) =~= s.take(16));
        }
    }

    proof fn law_refusal(s: Seq<u8>) {
    }
}

impl MallocDeviceRequest {
    /// Append the encoded body to `out`.
    pub fn encode(&self, out: &mut Vec<u8>)
        ensures
            final(out)@ == old(out)@ + self.bytes(),
    {
        bytes::put_u64(out, self.queue.raw());
        bytes::put_u64(out, self.size);
    }

    /// Decode a body.
    pub fn decode(buf: &[u8]) -> (r: Result<Self, ProtocolError>)
        ensures
            r == Self::parse(buf@),
    {
        let mut r = bytes::Reader::new(buf);
        Ok(
            Self {
                queue: Handle::from_raw(r.u64()?),
                size: r.u64()?,
            },
        )
    }
}

/// Response body for
/// [`sycl_op::MALLOC_DEVICE`](super::sycl_op::MALLOC_DEVICE).
#[derive(Debug, Clone, Copy, PartialEq, Eq)]
pub struct MallocDeviceResponse {
    /// Handle naming the newly allocated device pointer.
    pub ptr: Handle,
}

impl Wire for MallocDeviceResponse {
    open spec fn bytes(&self) -> Seq<u8> {
        bytes::le_u64(self.ptr@)
    }

    open spec fn parse(s: Seq<u8>) -> Result<Self, ProtocolError> {
        if s.len() < 8 {
            Err(ProtocolError::UnexpectedEof)
        } else {
            Ok(
                MallocDeviceResponse {
                    ptr: Handle::of(bytes::u64_at(s, 0)),
                },
            )
        }
    }

    proof fn law_round_trip(&self, rest: Seq<u8>) {
        let s = self.bytes() + rest;
        bytes::lemma_u64_at(s, 0, self.ptr@);
    }

    proof fn law_truncated(&self, n: int) {
    }
}

impl CanonicalWire for MallocDeviceResponse {
    proof fn law_canonical(s: Seq<u8>) {
        if s.len() >= 8 {
            bytes::lemma_le_u64(s, 0);
            assert(s.subrange(0, 8) =~= s.take(8));
        }
    }

    proof fn law_refusal(s: Seq<u8>) {
    }
}

impl MallocDeviceResponse {
    /// Append the encoded body to `out`.
    pub fn encode(&self, out: &mut Vec<u8>)
        ensures
            final(out)@ == old(out)@ + self.bytes(),
    {
        bytes::put_u64(out, self.ptr.raw());
    }

    /// Decode a body.
    pub fn decode(buf: &[u8]) -> (r: Result<Self, ProtocolError>)
        ensures
            r == Self::parse(buf@),
    {
        let mut r = bytes::Reader::new(buf);
        Ok(
            Self {
                ptr: Handle::from_raw(r.u64()?),
            },
        )
    }
}

/// Request body for [`sycl_op::FREE`](super::sycl_op::FREE).
///
/// The reply is an empty (ack) body, so there is no response struct.
#[derive(Debug, Clone, Copy, PartialEq, Eq)]
pub struct FreeRequest {
    /// Handle naming the device pointer being freed.
    pub ptr: Handle,
}

impl Wire for FreeRequest {
    open spec fn bytes(&self) -> Seq<u8> {
        bytes::le_u64(self.ptr@)
    }

    open spec fn parse(s: Seq<u8>) -> Result<Self, ProtocolError> {
        if s.len() < 8 {
            Err(ProtocolError::UnexpectedEof)
        } else {
            Ok(
                FreeRequest {
                    ptr: Handle::of(bytes::u64_at(s, 0)),
                },
            )
        }
    }

    proof fn law_round_trip(&self, rest: Seq<u8>) {
        let s = self.bytes() + rest;
        bytes::lemma_u64_at(s, 0, self.ptr@);
    }

    proof fn law_truncated(&self, n: int) {
    }
}

impl CanonicalWire for FreeRequest {
    proof fn law_canonical(s: Seq<u8>) {
        if s.len() >= 8 {
            bytes::lemma_le_u64(s, 0);
            assert(s.subrange(0, 8) =~= s.take(8));
        }
    }

    proof fn law_refusal(s: Seq<u8>) {
    }
}

impl FreeRequest {
    /// Append the encoded body to `out`.
    pub fn encode(&self, out: &mut Vec<u8>)
        ensures
            final(out)@ == old(out)@ + self.bytes(),
    {
        bytes::put_u64(out, self.ptr.raw());
    }

    /// Decode a body.
    pub fn decode(buf: &[u8]) -> (r: Result<Self, ProtocolError>)
        ensures
            r == Self::parse(buf@),
    {
        let mut r = bytes::Reader::new(buf);
        Ok(
            Self {
                ptr: Handle::from_raw(r.u64()?),
            },
        )
    }
}

/// On the wire a [`QueueCreateResponse`] is `queue` in 8 bytes, and nothing else.
pub proof fn law_queue_create_response_layout(m: QueueCreateResponse)
    ensures
        m.bytes().len() == 8,
        bytes::u64_at(m.bytes(), 0) == m.queue@,
{
    m.law_whole();
}

/// On the wire a [`MallocDeviceRequest`] is `queue` in 8 bytes, then `size` in 8
/// bytes, and nothing else.
pub proof fn law_malloc_device_request_layout(m: MallocDeviceRequest)
    ensures
        m.bytes().len() == 16,
        bytes::u64_at(m.bytes(), 0) == m.queue@,
        bytes::u64_at(m.bytes(), 8) == m.size,
{
    m.law_whole();
}

/// On the wire a [`MallocDeviceResponse`] is `ptr` in 8 bytes, and nothing else.
pub proof fn law_malloc_device_response_layout(m: MallocDeviceResponse)
    ensures
        m.bytes().len() == 8,
        bytes::u64_at(m.bytes(), 0) == m.ptr@,
{
    m.law_whole();
}

/// On the wire a [`FreeRequest`] is `ptr` in 8 bytes, and nothing else.
pub proof fn law_free_request_layout(m: FreeRequest)
    ensures
        m.bytes().len() == 8,
        bytes::u64_at(m.bytes(), 0) == m.ptr@,
{
    m.law_whole();
}

} // verus!
