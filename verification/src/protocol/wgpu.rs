//! WebGPU request/response body encoders and decoders.
//!
//! These match the canonical wire bodies for the WebGPU opcodes in
//! [`wgpu_op`](super::wgpu_op). Every multi-byte field is little-endian and a [`Handle`] is
//! carried as its raw 64-bit value (see [`Handle::raw`]). Short buffers decode
//! to [`ProtocolError::UnexpectedEof`].
//!
//! [`wgpu_op::REQUEST_DEVICE`](super::wgpu_op::REQUEST_DEVICE) takes an empty
//! request body, and
//! [`wgpu_op::DESTROY_BUFFER`](super::wgpu_op::DESTROY_BUFFER) replies with an
//! empty (ack) body, so neither needs a struct here.
use vstd::prelude::*;

use super::bytes;
use super::handle::Handle;
use super::wire::{CanonicalWire, Wire};
use super::ProtocolError;

verus! {

broadcast use {super::bytes::group_le_len, super::handle::group_handle_raw};

/// Response body for
/// [`wgpu_op::REQUEST_DEVICE`](super::wgpu_op::REQUEST_DEVICE).
///
/// The request body is empty, so there is no request struct.
#[derive(Debug, Clone, Copy, PartialEq, Eq)]
pub struct RequestDeviceResponse {
    /// Handle naming the newly acquired device.
    pub device: Handle,
}

impl Wire for RequestDeviceResponse {
    open spec fn bytes(&self) -> Seq<u8> {
        bytes::le_u64(self.device@)
    }

    open spec fn parse(s: Seq<u8>) -> Result<Self, ProtocolError> {
        if s.len() < 8 {
            Err(ProtocolError::UnexpectedEof)
        } else {
            Ok(
                RequestDeviceResponse {
                    device: Handle::of(bytes::u64_at(s, 0)),
                },
            )
        }
    }

    proof fn law_round_trip(&self, rest: Seq<u8>) {
        let s = self.bytes() + rest;
        bytes::lemma_u64_at(s, 0, self.device@);
    }

    proof fn law_truncated(&self, n: int) {
    }
}

impl CanonicalWire for RequestDeviceResponse {
    proof fn law_canonical(s: Seq<u8>) {
        if s.len() >= 8 {
            bytes::lemma_le_u64(s, 0);
            assert(s.subrange(0, 8) =~= s.take(8));
        }
    }

    proof fn law_refusal(s: Seq<u8>) {
    }
}

impl RequestDeviceResponse {
    /// Append the encoded body to `out`.
    pub fn encode(&self, out: &mut Vec<u8>)
        ensures
            final(out)@ == old(out)@ + self.bytes(),
    {
        bytes::put_u64(out, self.device.raw());
    }

    /// Decode a body.
    pub fn decode(buf: &[u8]) -> (r: Result<Self, ProtocolError>)
        ensures
            r == Self::parse(buf@),
    {
        let mut r = bytes::Reader::new(buf);
        Ok(
            Self {
                device: Handle::from_raw(r.u64()?),
            },
        )
    }
}

/// Request body for
/// [`wgpu_op::CREATE_BUFFER`](super::wgpu_op::CREATE_BUFFER).
#[derive(Debug, Clone, Copy, PartialEq, Eq)]
pub struct CreateBufferRequest {
    /// Handle naming the device the buffer is created on.
    pub device: Handle,
    /// Size of the buffer in bytes.
    pub size: u64,
    /// Buffer usage flag bits.
    pub usage: u32,
}

impl Wire for CreateBufferRequest {
    open spec fn bytes(&self) -> Seq<u8> {
        bytes::le_u64(self.device@) + bytes::le_u64(self.size) + bytes::le_u32(self.usage)
    }

    open spec fn parse(s: Seq<u8>) -> Result<Self, ProtocolError> {
        if s.len() < 20 {
            Err(ProtocolError::UnexpectedEof)
        } else {
            Ok(
                CreateBufferRequest {
                    device: Handle::of(bytes::u64_at(s, 0)),
                    size: bytes::u64_at(s, 8),
                    usage: bytes::u32_at(s, 16),
                },
            )
        }
    }

    proof fn law_round_trip(&self, rest: Seq<u8>) {
        let s = self.bytes() + rest;
        bytes::lemma_u64_at(s, 0, self.device@);
        bytes::lemma_u64_at(s, 8, self.size);
        bytes::lemma_u32_at(s, 16, self.usage);
    }

    proof fn law_truncated(&self, n: int) {
    }
}

impl CanonicalWire for CreateBufferRequest {
    proof fn law_canonical(s: Seq<u8>) {
        if s.len() >= 20 {
            bytes::lemma_le_u64(s, 0);
            bytes::lemma_le_u64(s, 8);
            bytes::lemma_le_u32(s, 16);
            assert(s.subrange(0, 8) + s.subrange(8, 16) + s.subrange(16, 20) =~= s.take(20));
        }
    }

    proof fn law_refusal(s: Seq<u8>) {
    }
}

impl CreateBufferRequest {
    /// Append the encoded body to `out`.
    pub fn encode(&self, out: &mut Vec<u8>)
        ensures
            final(out)@ == old(out)@ + self.bytes(),
    {
        bytes::put_u64(out, self.device.raw());
        bytes::put_u64(out, self.size);
        bytes::put_u32(out, self.usage);
    }

    /// Decode a body.
    pub fn decode(buf: &[u8]) -> (r: Result<Self, ProtocolError>)
        ensures
            r == Self::parse(buf@),
    {
        let mut r = bytes::Reader::new(buf);
        Ok(
            Self {
                device: Handle::from_raw(r.u64()?),
                size: r.u64()?,
                usage: r.u32()?,
            },
        )
    }
}

/// Response body for
/// [`wgpu_op::CREATE_BUFFER`](super::wgpu_op::CREATE_BUFFER).
#[derive(Debug, Clone, Copy, PartialEq, Eq)]
pub struct CreateBufferResponse {
    /// Handle naming the newly created buffer.
    pub buffer: Handle,
}

impl Wire for CreateBufferResponse {
    open spec fn bytes(&self) -> Seq<u8> {
        bytes::le_u64(self.buffer@)
    }

    open spec fn parse(s: Seq<u8>) -> Result<Self, ProtocolError> {
        if s.len() < 8 {
            Err(ProtocolError::UnexpectedEof)
        } else {
            Ok(
                CreateBufferResponse {
                    buffer: Handle::of(bytes::u64_at(s, 0)),
                },
            )
        }
    }

    proof fn law_round_trip(&self, rest: Seq<u8>) {
        let s = self.bytes() + rest;
        bytes::lemma_u64_at(s, 0, self.buffer@);
    }

    proof fn law_truncated(&self, n: int) {
    }
}

impl CanonicalWire for CreateBufferResponse {
    proof fn law_canonical(s: Seq<u8>) {
        if s.len() >= 8 {
            bytes::lemma_le_u64(s, 0);
            assert(s.subrange(0, 8) =~= s.take(8));
        }
    }

    proof fn law_refusal(s: Seq<u8>) {
    }
}

impl CreateBufferResponse {
    /// Append the encoded body to `out`.
    pub fn encode(&self, out: &mut Vec<u8>)
        ensures
            final(out)@ == old(out)@ + self.bytes(),
    {
        bytes::put_u64(out, self.buffer.raw());
    }

    /// Decode a body.
    pub fn decode(buf: &[u8]) -> (r: Result<Self, ProtocolError>)
        ensures
            r == Self::parse(buf@),
    {
        let mut r = bytes::Reader::new(buf);
        Ok(
            Self {
                buffer: Handle::from_raw(r.u64()?),
            },
        )
    }
}

/// Request body for
/// [`wgpu_op::DESTROY_BUFFER`](super::wgpu_op::DESTROY_BUFFER).
///
/// The reply is an empty (ack) body, so there is no response struct.
#[derive(Debug, Clone, Copy, PartialEq, Eq)]
pub struct DestroyBufferRequest {
    /// Handle naming the buffer being destroyed.
    pub buffer: Handle,
}

impl Wire for DestroyBufferRequest {
    open spec fn bytes(&self) -> Seq<u8> {
        bytes::le_u64(self.buffer@)
    }

    open spec fn parse(s: Seq<u8>) -> Result<Self, ProtocolError> {
        if s.len() < 8 {
            Err(ProtocolError::UnexpectedEof)
        } else {
            Ok(
                DestroyBufferRequest {
                    buffer: Handle::of(bytes::u64_at(s, 0)),
                },
            )
        }
    }

    proof fn law_round_trip(&self, rest: Seq<u8>) {
        let s = self.bytes() + rest;
        bytes::lemma_u64_at(s, 0, self.buffer@);
    }

    proof fn law_truncated(&self, n: int) {
    }
}

impl CanonicalWire for DestroyBufferRequest {
    proof fn law_canonical(s: Seq<u8>) {
        if s.len() >= 8 {
            bytes::lemma_le_u64(s, 0);
            assert(s.subrange(0, 8) =~= s.take(8));
        }
    }

    proof fn law_refusal(s: Seq<u8>) {
    }
}

impl DestroyBufferRequest {
    /// Append the encoded body to `out`.
    pub fn encode(&self, out: &mut Vec<u8>)
        ensures
            final(out)@ == old(out)@ + self.bytes(),
    {
        bytes::put_u64(out, self.buffer.raw());
    }

    /// Decode a body.
    pub fn decode(buf: &[u8]) -> (r: Result<Self, ProtocolError>)
        ensures
            r == Self::parse(buf@),
    {
        let mut r = bytes::Reader::new(buf);
        Ok(
            Self {
                buffer: Handle::from_raw(r.u64()?),
            },
        )
    }
}

/// On the wire a [`RequestDeviceResponse`] is `device` in 8 bytes, and nothing
/// else.
pub proof fn law_request_device_response_layout(m: RequestDeviceResponse)
    ensures
        m.bytes().len() == 8,
        bytes::u64_at(m.bytes(), 0) == m.device@,
{
    m.law_whole();
}

/// On the wire a [`CreateBufferRequest`] is `device` in 8 bytes, then `size` in 8
/// bytes, then `usage` in 4 bytes, and nothing else.
pub proof fn law_create_buffer_request_layout(m: CreateBufferRequest)
    ensures
        m.bytes().len() == 20,
        bytes::u64_at(m.bytes(), 0) == m.device@,
        bytes::u64_at(m.bytes(), 8) == m.size,
        bytes::u32_at(m.bytes(), 16) == m.usage,
{
    m.law_whole();
}

/// On the wire a [`CreateBufferResponse`] is `buffer` in 8 bytes, and nothing else.
pub proof fn law_create_buffer_response_layout(m: CreateBufferResponse)
    ensures
        m.bytes().len() == 8,
        bytes::u64_at(m.bytes(), 0) == m.buffer@,
{
    m.law_whole();
}

/// On the wire a [`DestroyBufferRequest`] is `buffer` in 8 bytes, and nothing else.
pub proof fn law_destroy_buffer_request_layout(m: DestroyBufferRequest)
    ensures
        m.bytes().len() == 8,
        bytes::u64_at(m.bytes(), 0) == m.buffer@,
{
    m.law_whole();
}

} // verus!
