//! GraftX wire protocol.
//!
//! Defines the control-plane framing, opcode scheme, and handshake messages
//! shared by the client shim and the server. This module is the single source
//! of truth for the wire contract; both ends use it.
//!
//! Layering: the transport frame carries a magic, a channel and a length and
//! wraps an *opaque* body. That body is the protocol frame defined here, a
//! [`FrameHeader`] followed by a per-opcode payload. The magic lives in the
//! transport layer, not in this header.
use vstd::prelude::*;

use crate::text;

pub mod amf;
pub mod amf_op;
pub mod bytes;
pub mod cl;
pub mod cl_op;
pub mod core_op;
pub mod cuda;
pub mod cuda_op;
pub mod frame;
pub mod gl;
pub mod gl_op;
pub mod handle;
pub mod handshake;
pub mod hip;
pub mod hip_op;
pub mod l0;
pub mod l0_op;
pub mod optix;
pub mod optix_op;
pub mod sycl;
pub mod sycl_op;
pub mod video;
pub mod video_op;
pub mod vk;
pub mod vk_op;
pub mod wgpu;
pub mod wgpu_op;
pub mod wire;

pub use frame::{decode_frame, encode_frame, FrameHeader, FrameKind, HEADER_LEN};
pub use handle::Handle;
pub use handshake::{Hello, Welcome};

verus! {

/// Protocol major version. Bumped on a breaking wire change; while `0` the
/// format is pre-stable and may change freely.
pub const PROTOCOL_MAJOR: u16 = 0;

/// Protocol minor version. Bumped on backward-compatible additions.
pub const PROTOCOL_MINOR: u16 = 0;

/// Default negotiated cap on a single control-frame body, in bytes (1 MiB).
/// The handshake may lower this; payloads larger than the negotiated cap move
/// over the bulk plane instead.
pub const DEFAULT_MAX_FRAME_BODY: u32 = 0x10_0000;

/// Errors raised while encoding or decoding the wire format.
#[derive(Debug, PartialEq, Eq, Structural)]
pub enum ProtocolError {
    /// The buffer ended before a full structure could be decoded.
    UnexpectedEof,
    /// The decoded opcode does not map to any known entrypoint.
    UnknownOpcode(u32),
    /// The decoded frame kind is not one of the known kinds.
    BadKind(u16),
    /// The peer speaks an incompatible protocol major version.
    BadVersion {
        /// Major version the peer offered.
        major: u16,
        /// Minor version the peer offered.
        minor: u16,
    },
    /// A frame body exceeded the negotiated maximum.
    FrameTooLarge(u32),
    /// The declared body length did not match the bytes present.
    BodyLenMismatch {
        /// Length declared in the header.
        declared: u32,
        /// Bytes actually present after the header.
        actual: usize,
    },
}

impl ProtocolError {
    /// The error in words.
    pub open spec fn text(&self) -> Seq<char> {
        match *self {
            ProtocolError::UnexpectedEof => "unexpected end of buffer"@,
            ProtocolError::UnknownOpcode(op) => "unknown opcode: "@ + text::hex_word(op),
            ProtocolError::BadKind(kind) => "unsupported frame kind: "@ + text::dec(kind as nat),
            ProtocolError::BadVersion { major, minor } => "unsupported protocol version: "@
                + text::dec(major as nat) + "."@ + text::dec(minor as nat),
            ProtocolError::FrameTooLarge(len) => "frame body too large: "@ + text::dec(len as nat)
                + " bytes"@,
            ProtocolError::BodyLenMismatch { declared, actual } =>
                "body length mismatch: header says "@ + text::dec(declared as nat) + ", found "@
                + text::dec(actual as nat),
        }
    }

    /// Say the error in words.
    pub fn message(&self) -> (out: String)
        ensures
            out@ == self.text(),
    {
        let mut out = String::new();
        match self {
            ProtocolError::UnexpectedEof => {
                out.append("unexpected end of buffer");
            },
            ProtocolError::UnknownOpcode(op) => {
                out.append("unknown opcode: ");
                text::push_hex_word(&mut out, *op);
            },
            ProtocolError::BadKind(kind) => {
                out.append("unsupported frame kind: ");
                text::push_dec(&mut out, *kind as u64);
            },
            ProtocolError::BadVersion { major, minor } => {
                out.append("unsupported protocol version: ");
                text::push_dec(&mut out, *major as u64);
                out.append(".");
                text::push_dec(&mut out, *minor as u64);
            },
            ProtocolError::FrameTooLarge(len) => {
                out.append("frame body too large: ");
                text::push_dec(&mut out, *len as u64);
                out.append(" bytes");
            },
            ProtocolError::BodyLenMismatch { declared, actual } => {
                out.append("body length mismatch: header says ");
                text::push_dec(&mut out, *declared as u64);
                out.append(", found ");
                text::push_dec(&mut out, *actual as u64);
            },
        }
        assert(out@ =~= self.text());
        out
    }
}

/// API namespace occupying the high byte of an [`opcode`].
#[derive(Debug, Clone, Copy, PartialEq, Eq, Structural)]
pub enum ApiId {
    /// Core protocol entrypoints (handshake, no-op, control).
    Core,
    /// Vulkan.
    Vulkan,
    /// OpenGL / OpenGL ES / EGL / GLX.
    OpenGl,
    /// CUDA.
    Cuda,
    /// OpenCL.
    OpenCl,
    /// ROCm / HIP.
    Hip,
    /// Intel Level Zero.
    LevelZero,
    /// Video codecs (VA-API / VDPAU / NVENC / NVDEC / Vulkan Video).
    Video,
    /// WebGPU.
    WebGpu,
    /// NVIDIA OptiX ray tracing.
    OptiX,
    /// SYCL.
    Sycl,
    /// AMD Advanced Media Framework (AMF) video encode.
    Amf,
}

impl ApiId {
    /// The namespace byte of the API.
    pub open spec fn byte(self) -> u8 {
        match self {
            ApiId::Core => 0x00,
            ApiId::Vulkan => 0x01,
            ApiId::OpenGl => 0x02,
            ApiId::Cuda => 0x03,
            ApiId::OpenCl => 0x04,
            ApiId::Hip => 0x05,
            ApiId::LevelZero => 0x06,
            ApiId::Video => 0x07,
            ApiId::WebGpu => 0x08,
            ApiId::OptiX => 0x09,
            ApiId::Sycl => 0x0A,
            ApiId::Amf => 0x0B,
        }
    }

    /// The namespace byte of the API.
    pub fn to_byte(self) -> (b: u8)
        ensures
            b == self.byte(),
    {
        match self {
            ApiId::Core => 0x00,
            ApiId::Vulkan => 0x01,
            ApiId::OpenGl => 0x02,
            ApiId::Cuda => 0x03,
            ApiId::OpenCl => 0x04,
            ApiId::Hip => 0x05,
            ApiId::LevelZero => 0x06,
            ApiId::Video => 0x07,
            ApiId::WebGpu => 0x08,
            ApiId::OptiX => 0x09,
            ApiId::Sycl => 0x0A,
            ApiId::Amf => 0x0B,
        }
    }
}

/// The opcode of call id `call` in the namespace `api`: the namespace byte over
/// the low 24 bits of the call id.
pub open spec fn spec_opcode(api: ApiId, call: u32) -> u32 {
    (api.byte() * 0x100_0000 + call % 0x100_0000) as u32
}

/// The namespace byte of an opcode.
pub open spec fn spec_opcode_api(op: u32) -> u8 {
    (op / 0x100_0000) as u8
}

/// The call id of an opcode.
pub open spec fn spec_opcode_call(op: u32) -> u32 {
    op % 0x100_0000
}

/// Build an opcode from its API namespace and 24-bit call id.
///
/// An opcode is a `u32` whose high byte is the [`ApiId`] and whose low 24 bits
/// are the call id within that API (e.g. Vulkan opcodes are `0x01_xxxxxx`).
pub fn opcode(api: ApiId, call: u32) -> (op: u32)
    ensures
        op == spec_opcode(api, call),
{
    let api_byte: u8 = api.to_byte();
    assert((((api_byte as u32) << 24) | (call & 0x00FF_FFFF)) == api_byte * 0x100_0000 + call
        % 0x100_0000) by (bit_vector);
    ((api_byte as u32) << 24) | (call & 0x00FF_FFFF)
}

/// The API-namespace byte of an opcode.
pub fn opcode_api(op: u32) -> (b: u8)
    ensures
        b == spec_opcode_api(op),
{
    assert((op >> 24) == op / 0x100_0000) by (bit_vector);
    (op >> 24) as u8
}

/// The 24-bit call id of an opcode.
pub fn opcode_call(op: u32) -> (call: u32)
    ensures
        call == spec_opcode_call(op),
{
    assert((op & 0x00FF_FFFF) == op % 0x100_0000) by (bit_vector);
    op & 0x00FF_FFFF
}

/// An opcode gives back the namespace and the 24-bit call id it was built from.
pub proof fn law_opcode_fields(api: ApiId, call: u32)
    ensures
        spec_opcode_api(spec_opcode(api, call)) == api.byte(),
        spec_opcode_call(spec_opcode(api, call)) == call % 0x100_0000,
{
}

/// Opcodes of different namespaces, or of different 24-bit call ids, differ.
pub proof fn law_opcode_injective(api1: ApiId, call1: u32, api2: ApiId, call2: u32)
    requires
        spec_opcode(api1, call1) == spec_opcode(api2, call2),
    ensures
        api1 == api2,
        call1 % 0x100_0000 == call2 % 0x100_0000,
{
    law_opcode_fields(api1, call1);
    law_opcode_fields(api2, call2);
}

/// No two APIs share a namespace byte: an opcode belongs to one API at most.
pub proof fn law_namespaces_differ(a: ApiId, b: ApiId)
    requires
        a.byte() == b.byte(),
    ensures
        a == b,
{
}

/// An error in words tells what went wrong: the numbers in the text read back as
/// those that the error carries, in this order.
pub proof fn law_error_text_reads_back(
    op: u32,
    kind: u16,
    major: u16,
    minor: u16,
    len: u32,
    actual: usize,
)
    ensures
        ProtocolError::UnexpectedEof.text() == "unexpected end of buffer"@,
        exists|word: Seq<char>|
            {
                &&& ProtocolError::UnknownOpcode(op).text() == "unknown opcode: "@ + ("0x"@ + word)
                &&& word.len() == 8
                &&& #[trigger] text::hex_value(word) == op
            },
        exists|n: Seq<char>|
            ProtocolError::BadKind(kind).text() == "unsupported frame kind: "@ + n
                && #[trigger] text::number(n) == Some(kind as nat),
        exists|m: Seq<char>, n: Seq<char>|
            {
                &&& ProtocolError::BadVersion { major, minor }.text()
                    == "unsupported protocol version: "@ + m + "."@ + n
                &&& #[trigger] text::number(m) == Some(major as nat)
                &&& #[trigger] text::number(n) == Some(minor as nat)
            },
        exists|n: Seq<char>|
            ProtocolError::FrameTooLarge(len).text() == "frame body too large: "@ + n + " bytes"@
                && #[trigger] text::number(n) == Some(len as nat),
        exists|m: Seq<char>, n: Seq<char>|
            {
                &&& ProtocolError::BodyLenMismatch { declared: len, actual }.text()
                    == "body length mismatch: header says "@ + m + ", found "@ + n
                &&& #[trigger] text::number(m) == Some(len as nat)
                &&& #[trigger] text::number(n) == Some(actual as nat)
            },
{
    text::law_hex_word_reads_back(op);
    text::law_dec_reads_back(kind as nat);
    text::law_dec_reads_back(major as nat);
    text::law_dec_reads_back(minor as nat);
    text::law_dec_reads_back(len as nat);
    text::law_dec_reads_back(actual as nat);
    let word = choose|word: Seq<char>|
        {
            &&& text::hex_word(op) == "0x"@ + word
            &&& word.len() == 8
            &&& #[trigger] text::hex_value(word) == op
        };
    assert(text::hex_value(word) == op);
    assert(text::number(text::dec(major as nat)) == Some(major as nat) && text::number(
        text::dec(minor as nat),
    ) == Some(minor as nat));
    assert(text::number(text::dec(len as nat)) == Some(len as nat) && text::number(
        text::dec(actual as nat),
    ) == Some(actual as nat));
}

/// An opcode is the namespace byte of its API in the top 8 bits over the low 24
/// bits of the call id, and both are read back from it.
pub proof fn law_opcode_bits(api: ApiId, call: u32, op: u32, b: u8, c: u32)
    requires
        call_ensures(opcode, (api, call), op),
        call_ensures(opcode_api, (op,), b),
        call_ensures(opcode_call, (op,), c),
    ensures
        op == api.byte() * 0x100_0000 + call % 0x100_0000,
        b == api.byte(),
        c == call % 0x100_0000,
{
}

/// The protocol is at version 0.0, and its frame body limit is 1 MiB unless a
/// handshake lowers it.
pub proof fn law_protocol_parameters()
    ensures
        PROTOCOL_MAJOR == 0,
        PROTOCOL_MINOR == 0,
        DEFAULT_MAX_FRAME_BODY == 1024 * 1024,
{
}

/// Each API has the namespace byte that its opcodes start with on the wire.
pub proof fn law_namespace_bytes(api: ApiId, b: u8)
    requires
        call_ensures(ApiId::to_byte, (api,), b),
    ensures
        b == api.byte(),
        b == (match api {
            ApiId::Core => 0u8,
            ApiId::Vulkan => 1u8,
            ApiId::OpenGl => 2u8,
            ApiId::Cuda => 3u8,
            ApiId::OpenCl => 4u8,
            ApiId::Hip => 5u8,
            ApiId::LevelZero => 6u8,
            ApiId::Video => 7u8,
            ApiId::WebGpu => 8u8,
            ApiId::OptiX => 9u8,
            ApiId::Sycl => 10u8,
            ApiId::Amf => 11u8,
        }),
{
}

} // verus!
