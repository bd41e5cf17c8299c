//! OpenGL request/response body encoders and decoders.
//!
//! These match the canonical wire bodies for the OpenGL opcodes in [`gl_op`](super::gl_op).
//! Every multi-byte field is little-endian and a [`Handle`] is carried as its
//! raw 64-bit value (see [`Handle::raw`]). Short buffers decode to
//! [`ProtocolError::UnexpectedEof`].
//!
//! [`gl_op::CREATE_CONTEXT`](super::gl_op::CREATE_CONTEXT) takes an empty
//! request body, and [`gl_op::MAKE_CURRENT`](super::gl_op::MAKE_CURRENT)
//! replies with an empty (ack) body, so neither needs a struct here.
use vstd::prelude::*;

use super::bytes;
use super::handle::Handle;
use super::wire::{CanonicalWire, Wire};
use super::ProtocolError;

verus! {

broadcast use {super::bytes::group_le_len, super::handle::group_handle_raw};

/// Response body for [`gl_op::CREATE_CONTEXT`](super::gl_op::CREATE_CONTEXT).
#[derive(Debug, Clone, Copy, PartialEq, Eq)]
pub struct CreateContextResponse {
    /// Handle naming the newly created context.
    pub context: Handle,
}

impl Wire for CreateContextResponse {
    open spec fn bytes(&self) -> Seq<u8> {
        bytes::le_u64(self.context@)
    }

    open spec fn parse(s: Seq<u8>) -> Result<Self, ProtocolError> {
        if s.len() < 8 {
            Err(ProtocolError::UnexpectedEof)
        } else {
            Ok(
                CreateContextResponse {
                    context: Handle::of(bytes::u64_at(s, 0)),
                },
            )
        }
    }

    proof fn law_round_trip(&self, rest: Seq<u8>) {
        let s = self.bytes() + rest;
        bytes::lemma_u64_at(s, 0, self.context@);
    }

    proof fn law_truncated(&self, n: int) {
    }
}

impl CanonicalWire for CreateContextResponse {
    proof fn law_canonical(s: Seq<u8>) {
        if s.len() >= 8 {
            bytes::lemma_le_u64(s, 0);
            assert(s.subrange(0, 8) =~= s.take(8));
        }
    }

    proof fn law_refusal(s: Seq<u8>) {
    }
}

impl CreateContextResponse {
    /// Append the encoded body to `out`.
    pub fn encode(&self, out: &mut Vec<u8>)
        ensures
            final(out)@ == old(out)@ + self.bytes(),
    {
        bytes::put_u64(out, self.context.raw());
    }

    /// Decode a body.
    pub fn decode(buf: &[u8]) -> (r: Result<Self, ProtocolError>)
        ensures
            r == Self::parse(buf@),
    {
        let mut r = bytes::Reader::new(buf);
        Ok(
            Self {
                context: Handle::from_raw(r.u64()?),
            },
        )
    }
}

/// Request body for [`gl_op::MAKE_CURRENT`](super::gl_op::MAKE_CURRENT).
#[derive(Debug, Clone, Copy, PartialEq, Eq)]
pub struct MakeCurrentRequest {
    /// Handle naming the context to make current.
    pub context: Handle,
}

impl Wire for MakeCurrentRequest {
    open spec fn bytes(&self) -> Seq<u8> {
        bytes::le_u64(self.context@)
    }

    open spec fn parse(s: Seq<u8>) -> Result<Self, ProtocolError> {
        if s.len() < 8 {
            Err(ProtocolError::UnexpectedEof)
        } else {
            Ok(
                MakeCurrentRequest {
                    context: Handle::of(bytes::u64_at(s, 0)),
                },
            )
        }
    }

    proof fn law_round_trip(&self, rest: Seq<u8>) {
        let s = self.bytes() + rest;
        bytes::lemma_u64_at(s, 0, self.context@);
    }

    proof fn law_truncated(&self, n: int) {
    }
}

impl CanonicalWire for MakeCurrentRequest {
    proof fn law_canonical(s: Seq<u8>) {
        if s.len() >= 8 {
            bytes::lemma_le_u64(s, 0);
            assert(s.subrange(0, 8) =~= s.take(8));
        }
    }

    proof fn law_refusal(s: Seq<u8>) {
    }
}

impl MakeCurrentRequest {
    /// Append the encoded body to `out`.
    pub fn encode(&self, out: &mut Vec<u8>)
        ensures
            final(out)@ == old(out)@ + self.bytes(),
    {
        bytes::put_u64(out, self.context.raw());
    }

    /// Decode a body.
    pub fn decode(buf: &[u8]) -> (r: Result<Self, ProtocolError>)
        ensures
            r == Self::parse(buf@),
    {
        let mut r = bytes::Reader::new(buf);
        Ok(
            Self {
                context: Handle::from_raw(r.u64()?),
            },
        )
    }
}

/// Request body for [`gl_op::GEN_BUFFER`](super::gl_op::GEN_BUFFER).
#[derive(Debug, Clone, Copy, PartialEq, Eq)]
pub struct GenBufferRequest {
    /// Handle naming the context the buffer is generated in.
    pub context: Handle,
}

impl Wire for GenBufferRequest {
    open spec fn bytes(&self) -> Seq<u8> {
        bytes::le_u64(self.context@)
    }

    open spec fn parse(s: Seq<u8>) -> Result<Self, ProtocolError> {
        if s.len() < 8 {
            Err(ProtocolError::UnexpectedEof)
        } else {
            Ok(
                GenBufferRequest {
                    context: Handle::of(bytes::u64_at(s, 0)),
                },
            )
        }
    }

    proof fn law_round_trip(&self, rest: Seq<u8>) {
        let s = self.bytes() + rest;
        bytes::lemma_u64_at(s, 0, self.context@);
    }

    proof fn law_truncated(&self, n: int) {
    }
}

impl CanonicalWire for GenBufferRequest {
    proof fn law_canonical(s: Seq<u8>) {
        if s.len() >= 8 {
            bytes::lemma_le_u64(s, 0);
            assert(s.subrange(0, 8) =~= s.take(8));
        }
    }

    proof fn law_refusal(s: Seq<u8>) {
    }
}

impl GenBufferRequest {
    /// Append the encoded body to `out`.
    pub fn encode(&self, out: &mut Vec<u8>)
        ensures
            final(out)@ == old(out)@ + self.bytes(),
    {
        bytes::put_u64(out, self.context.raw());
    }

    /// Decode a body.
    pub fn decode(buf: &[u8]) -> (r: Result<Self, ProtocolError>)
        ensures
            r == Self::parse(buf@),
    {
        let mut r = bytes::Reader::new(buf);
        Ok(
            Self {
                context: Handle::from_raw(r.u64()?),
            },
        )
    }
}

/// Response body for [`gl_op::GEN_BUFFER`](super::gl_op::GEN_BUFFER).
#[derive(Debug, Clone, Copy, PartialEq, Eq)]
pub struct GenBufferResponse {
    /// Handle naming the newly generated buffer.
    pub buffer: Handle,
}

impl Wire for GenBufferResponse {
    open spec fn bytes(&self) -> Seq<u8> {
        bytes::le_u64(self.buffer@)
    }

    open spec fn parse(s: Seq<u8>) -> Result<Self, ProtocolError> {
        if s.len() < 8 {
            Err(ProtocolError::UnexpectedEof)
        } else {
            Ok(
                GenBufferResponse {
                    buffer: Handle::of(bytes::u64_at(s, 0)),
                },
            )
        }
    }

    proof fn law_round_trip(&self, rest: Seq<u8>) {
        let s = self.bytes() + rest;
        bytes::lemma_u64_at(s, 0, self.buffer@);
    }

    proof fn law_truncated(&self, n: int) {
    }
}

impl CanonicalWire for GenBufferResponse {
    proof fn law_canonical(s: Seq<u8>) {
        if s.len() >= 8 {
            bytes::lemma_le_u64(s, 0);
            assert(s.subrange(0, 8) =~= s.take(8));
        }
    }

    proof fn law_refusal(s: Seq<u8>) {
    }
}

impl GenBufferResponse {
    /// Append the encoded body to `out`.
    pub fn encode(&self, out: &mut Vec<u8>)
        ensures
            final(out)@ == old(out)@ + self.bytes(),
    {
        bytes::put_u64(out, self.buffer.raw());
    }

    /// Decode a body.
    pub fn decode(buf: &[u8]) -> (r: Result<Self, ProtocolError>)
        ensures
            r == Self::parse(buf@),
    {
        let mut r = bytes::Reader::new(buf);
        Ok(
            Self {
                buffer: Handle::from_raw(r.u64()?),
            },
        )
    }
}

/// Request body for [`gl_op::SWAP_BUFFERS`](super::gl_op::SWAP_BUFFERS).
#[derive(Debug, Clone, Copy, PartialEq, Eq)]
pub struct SwapBuffersRequest {
    /// Context whose back buffer is presented.
    pub context: Handle,
}

impl Wire for SwapBuffersRequest {
    open spec fn bytes(&self) -> Seq<u8> {
        bytes::le_u64(self.context@)
    }

    open spec fn parse(s: Seq<u8>) -> Result<Self, ProtocolError> {
        if s.len() < 8 {
            Err(ProtocolError::UnexpectedEof)
        } else {
            Ok(
                SwapBuffersRequest {
                    context: Handle::of(bytes::u64_at(s, 0)),
                },
            )
        }
    }

    proof fn law_round_trip(&self, rest: Seq<u8>) {
        let s = self.bytes() + rest;
        bytes::lemma_u64_at(s, 0, self.context@);
    }

    proof fn law_truncated(&self, n: int) {
    }
}

impl CanonicalWire for SwapBuffersRequest {
    proof fn law_canonical(s: Seq<u8>) {
        if s.len() >= 8 {
            bytes::lemma_le_u64(s, 0);
            assert(s.subrange(0, 8) =~= s.take(8));
        }
    }

    proof fn law_refusal(s: Seq<u8>) {
    }
}

impl SwapBuffersRequest {
    /// Append the encoded body to `out`.
    pub fn encode(&self, out: &mut Vec<u8>)
        ensures
            final(out)@ == old(out)@ + self.bytes(),
    {
        bytes::put_u64(out, self.context.raw());
    }

    /// Decode a body.
    pub fn decode(buf: &[u8]) -> (r: Result<Self, ProtocolError>)
        ensures
            r == Self::parse(buf@),
    {
        let mut r = bytes::Reader::new(buf);
        Ok(
            Self {
                context: Handle::from_raw(r.u64()?),
            },
        )
    }
}

/// Request body for [`gl_op::DELETE_BUFFER`](super::gl_op::DELETE_BUFFER).
#[derive(Debug, Clone, Copy, PartialEq, Eq)]
pub struct DeleteBufferRequest {
    /// Buffer to delete.
    pub buffer: Handle,
}

impl Wire for DeleteBufferRequest {
    open spec fn bytes(&self) -> Seq<u8> {
        bytes::le_u64(self.buffer@)
    }

    open spec fn parse(s: Seq<u8>) -> Result<Self, ProtocolError> {
        if s.len() < 8 {
            Err(ProtocolError::UnexpectedEof)
        } else {
            Ok(
                DeleteBufferRequest {
                    buffer: Handle::of(bytes::u64_at(s, 0)),
                },
            )
        }
    }

    proof fn law_round_trip(&self, rest: Seq<u8>) {
        let s = self.bytes() + rest;
        bytes::lemma_u64_at(s, 0, self.buffer@);
    }

    proof fn law_truncated(&self, n: int) {
    }
}

impl CanonicalWire for DeleteBufferRequest {
    proof fn law_canonical(s: Seq<u8>) {
        if s.len() >= 8 {
            bytes::lemma_le_u64(s, 0);
            assert(s.subrange(0, 8) =~= s.take(8));
        }
    }

    proof fn law_refusal(s: Seq<u8>) {
    }
}

impl DeleteBufferRequest {
    /// Append the encoded body to `out`.
    pub fn encode(&self, out: &mut Vec<u8>)
        ensures
            final(out)@ == old(out)@ + self.bytes(),
    {
        bytes::put_u64(out, self.buffer.raw());
    }

    /// Decode a body.
    pub fn decode(buf: &[u8]) -> (r: Result<Self, ProtocolError>)
        ensures
            r == Self::parse(buf@),
    {
        let mut r = bytes::Reader::new(buf);
        Ok(
            Self {
                buffer: Handle::from_raw(r.u64()?),
            },
        )
    }
}

/// On the wire a [`CreateContextResponse`] is `context` in 8 bytes, and nothing
/// else.
pub proof fn law_create_context_response_layout(m: CreateContextResponse)
    ensures
        m.bytes().len() == 8,
        bytes::u64_at(m.bytes(), 0) == m.context@,
{
    m.law_whole();
}

/// On the wire a [`MakeCurrentRequest`] is `context` in 8 bytes, and nothing else.
pub proof fn law_make_current_request_layout(m: MakeCurrentRequest)
    ensures
        m.bytes().len() == 8,
        bytes::u64_at(m.bytes(), 0) == m.context@,
{
    m.law_whole();
}

/// On the wire a [`GenBufferRequest`] is `context` in 8 bytes, and nothing else.
pub proof fn law_gen_buffer_request_layout(m: GenBufferRequest)
    ensures
        m.bytes().len() == 8,
        bytes::u64_at(m.bytes(), 0) == m.context@,
{
    m.law_whole();
}

/// On the wire a [`GenBufferResponse`] is `buffer` in 8 bytes, and nothing else.
pub proof fn law_gen_buffer_response_layout(m: GenBufferResponse)
    ensures
        m.bytes().len() == 8,
        bytes::u64_at(m.bytes(), 0) == m.buffer@,
{
    m.law_whole();
}

/// On the wire a [`SwapBuffersRequest`] is `context` in 8 bytes, and nothing else.
pub proof fn law_swap_buffers_request_layout(m: SwapBuffersRequest)
    ensures
        m.bytes().len() == 8,
        bytes::u64_at(m.bytes(), 0) == m.context@,
{
    m.law_whole();
}

/// On the wire a [`DeleteBufferRequest`] is `buffer` in 8 bytes, and nothing else.
pub proof fn law_delete_buffer_request_layout(m: DeleteBufferRequest)
    ensures
        m.bytes().len() == 8,
        bytes::u64_at(m.bytes(), 0) == m.buffer@,
{
    m.law_whole();
}

} // verus!
