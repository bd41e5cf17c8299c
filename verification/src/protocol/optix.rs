//! OptiX request/response body encoders and decoders.
//!
//! These match the canonical wire bodies for the OptiX opcodes in
//! [`optix_op`](super::optix_op). Every multi-byte field is little-endian and a [`Handle`] is
//! carried as its raw 64-bit value (see [`Handle::raw`]). Short buffers decode
//! to [`ProtocolError::UnexpectedEof`].
//!
//! [`optix_op::CONTEXT_CREATE`](super::optix_op::CONTEXT_CREATE) takes an empty
//! request body, and [`optix_op::DESTROY`](super::optix_op::DESTROY) replies
//! with an empty (ack) body, so neither needs a struct here.
use vstd::prelude::*;

use super::bytes;
use super::handle::Handle;
use super::wire::{CanonicalWire, Wire};
use super::ProtocolError;

verus! {

broadcast use {super::bytes::group_le_len, super::handle::group_handle_raw};

/// Response body for
/// [`optix_op::CONTEXT_CREATE`](super::optix_op::CONTEXT_CREATE).
///
/// The request body is empty, so there is no request struct.
#[derive(Debug, Clone, Copy, PartialEq, Eq)]
pub struct ContextCreateResponse {
    /// Handle naming the newly created context.
    pub context: Handle,
}

impl Wire for ContextCreateResponse {
    open spec fn bytes(&self) -> Seq<u8> {
        bytes::le_u64(self.context@)
    }

    open spec fn parse(s: Seq<u8>) -> Result<Self, ProtocolError> {
        if s.len() < 8 {
            Err(ProtocolError::UnexpectedEof)
        } else {
            Ok(
                ContextCreateResponse {
                    context: Handle::of(bytes::u64_at(s, 0)),
                },
            )
        }
    }

    proof fn law_round_trip(&self, rest: Seq<u8>) {
        let s = self.bytes() + rest;
        bytes::lemma_u64_at(s, 0, self.context@);
    }

    proof fn law_truncated(&self, n: int) {
    }
}

impl CanonicalWire for ContextCreateResponse {
    proof fn law_canonical(s: Seq<u8>) {
        if s.len() >= 8 {
            bytes::lemma_le_u64(s, 0);
            assert(s.subrange(0, 8) =~= s.take(8));
        }
    }

    proof fn law_refusal(s: Seq<u8>) {
    }
}

impl ContextCreateResponse {
    /// Append the encoded body to `out`.
    pub fn encode(&self, out: &mut Vec<u8>)
        ensures
            final(out)@ == old(out)@ + self.bytes(),
    {
        bytes::put_u64(out, self.context.raw());
    }

    /// Decode a body.
    pub fn decode(buf: &[u8]) -> (r: Result<Self, ProtocolError>)
        ensures
            r == Self::parse(buf@),
    {
        let mut r = bytes::Reader::new(buf);
        Ok(
            Self {
                context: Handle::from_raw(r.u64()?),
            },
        )
    }
}

/// Request body for
/// [`optix_op::PIPELINE_CREATE`](super::optix_op::PIPELINE_CREATE).
#[derive(Debug, Clone, Copy, PartialEq, Eq)]
pub struct PipelineCreateRequest {
    /// Handle naming the context the pipeline is created in.
    pub context: Handle,
}

impl Wire for PipelineCreateRequest {
    open spec fn bytes(&self) -> Seq<u8> {
        bytes::le_u64(self.context@)
    }

    open spec fn parse(s: Seq<u8>) -> Result<Self, ProtocolError> {
        if s.len() < 8 {
            Err(ProtocolError::UnexpectedEof)
        } else {
            Ok(
                PipelineCreateRequest {
                    context: Handle::of(bytes::u64_at(s, 0)),
                },
            )
        }
    }

    proof fn law_round_trip(&self, rest: Seq<u8>) {
        let s = self.bytes() + rest;
        bytes::lemma_u64_at(s, 0, self.context@);
    }

    proof fn law_truncated(&self, n: int) {
    }
}

impl CanonicalWire for PipelineCreateRequest {
    proof fn law_canonical(s: Seq<u8>) {
        if s.len() >= 8 {
            bytes::lemma_le_u64(s, 0);
            assert(s.subrange(0, 8) =~= s.take(8));
        }
    }

    proof fn law_refusal(s: Seq<u8>) {
    }
}

impl PipelineCreateRequest {
    /// Append the encoded body to `out`.
    pub fn encode(&self, out: &mut Vec<u8>)
        ensures
            final(out)@ == old(out)@ + self.bytes(),
    {
        bytes::put_u64(out, self.context.raw());
    }

    /// Decode a body.
    pub fn decode(buf: &[u8]) -> (r: Result<Self, ProtocolError>)
        ensures
            r == Self::parse(buf@),
    {
        let mut r = bytes::Reader::new(buf);
        Ok(
            Self {
                context: Handle::from_raw(r.u64()?),
            },
        )
    }
}

/// Response body for
/// [`optix_op::PIPELINE_CREATE`](super::optix_op::PIPELINE_CREATE).
#[derive(Debug, Clone, Copy, PartialEq, Eq)]
pub struct PipelineCreateResponse {
    /// Handle naming the newly created pipeline.
    pub pipeline: Handle,
}

impl Wire for PipelineCreateResponse {
    open spec fn bytes(&self) -> Seq<u8> {
        bytes::le_u64(self.pipeline@)
    }

    open spec fn parse(s: Seq<u8>) -> Result<Self, ProtocolError> {
        if s.len() < 8 {
            Err(ProtocolError::UnexpectedEof)
        } else {
            Ok(
                PipelineCreateResponse {
                    pipeline: Handle::of(bytes::u64_at(s, 0)),
                },
            )
        }
    }

    proof fn law_round_trip(&self, rest: Seq<u8>) {
        let s = self.bytes() + rest;
        bytes::lemma_u64_at(s, 0, self.pipeline@);
    }

    proof fn law_truncated(&self, n: int) {
    }
}

impl CanonicalWire for PipelineCreateResponse {
    proof fn law_canonical(s: Seq<u8>) {
        if s.len() >= 8 {
            bytes::lemma_le_u64(s, 0);
            assert(s.subrange(0, 8) =~= s.take(8));
        }
    }

    proof fn law_refusal(s: Seq<u8>) {
    }
}

impl PipelineCreateResponse {
    /// Append the encoded body to `out`.
    pub fn encode(&self, out: &mut Vec<u8>)
        ensures
            final(out)@ == old(out)@ + self.bytes(),
    {
        bytes::put_u64(out, self.pipeline.raw());
    }

    /// Decode a body.
    pub fn decode(buf: &[u8]) -> (r: Result<Self, ProtocolError>)
        ensures
            r == Self::parse(buf@),
    {
        let mut r = bytes::Reader::new(buf);
        Ok(
            Self {
                pipeline: Handle::from_raw(r.u64()?),
            },
        )
    }
}

/// Request body for [`optix_op::DESTROY`](super::optix_op::DESTROY).
///
/// The reply is an empty (ack) body, so there is no response struct.
#[derive(Debug, Clone, Copy, PartialEq, Eq)]
pub struct DestroyRequest {
    /// Handle naming the context or pipeline being destroyed.
    pub handle: Handle,
}

impl Wire for DestroyRequest {
    open spec fn bytes(&self) -> Seq<u8> {
        bytes::le_u64(self.handle@)
    }

    open spec fn parse(s: Seq<u8>) -> Result<Self, ProtocolError> {
        if s.len() < 8 {
            Err(ProtocolError::UnexpectedEof)
        } else {
            Ok(
                DestroyRequest {
                    handle: Handle::of(bytes::u64_at(s, 0)),
                },
            )
        }
    }

    proof fn law_round_trip(&self, rest: Seq<u8>) {
        let s = self.bytes() + rest;
        bytes::lemma_u64_at(s, 0, self.handle@);
    }

    proof fn law_truncated(&self, n: int) {
    }
}

impl CanonicalWire for DestroyRequest {
    proof fn law_canonical(s: Seq<u8>) {
        if s.len() >= 8 {
            bytes::lemma_le_u64(s, 0);
            assert(s.subrange(0, 8) =~= s.take(8));
        }
    }

    proof fn law_refusal(s: Seq<u8>) {
    }
}

impl DestroyRequest {
    /// Append the encoded body to `out`.
    pub fn encode(&self, out: &mut Vec<u8>)
        ensures
            final(out)@ == old(out)@ + self.bytes(),
    {
        bytes::put_u64(out, self.handle.raw());
    }

    /// Decode a body.
    pub fn decode(buf: &[u8]) -> (r: Result<Self, ProtocolError>)
        ensures
            r == Self::parse(buf@),
    {
        let mut r = bytes::Reader::new(buf);
        Ok(
            Self {
                handle: Handle::from_raw(r.u64()?),
            },
        )
    }
}

/// On the wire a [`ContextCreateResponse`] is `context` in 8 bytes, and nothing
/// else.
pub proof fn law_context_create_response_layout(m: ContextCreateResponse)
    ensures
        m.bytes().len() == 8,
        bytes::u64_at(m.bytes(), 0) == m.context@,
{
    m.law_whole();
}

/// On the wire a [`PipelineCreateRequest`] is `context` in 8 bytes, and nothing
/// else.
pub proof fn law_pipeline_create_request_layout(m: PipelineCreateRequest)
    ensures
        m.bytes().len() == 8,
        bytes::u64_at(m.bytes(), 0) == m.context@,
{
    m.law_whole();
}

/// On the wire a [`PipelineCreateResponse`] is `pipeline` in 8 bytes, and nothing
/// else.
pub proof fn law_pipeline_create_response_layout(m: PipelineCreateResponse)
    ensures
        m.bytes().len() == 8,
        bytes::u64_at(m.bytes(), 0) == m.pipeline@,
{
    m.law_whole();
}

/// On the wire a [`DestroyRequest`] is `handle` in 8 bytes, and nothing else.
pub proof fn law_destroy_request_layout(m: DestroyRequest)
    ensures
        m.bytes().len() == 8,
        bytes::u64_at(m.bytes(), 0) == m.handle@,
{
    m.law_whole();
}

} // verus!
