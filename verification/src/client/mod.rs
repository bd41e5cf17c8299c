//! GraftX client.
//!
//! Loaded into a guest application in place of the real GPU driver libraries.
//! Each shim intercepts an API's C entry points, serializes the calls with
//! [`protocol`](crate::protocol), and forwards them over a transport to the
//! server.
//!
//! A call is an exchange of two frames. For each call there is a function that
//! builds the request frame and one that reads the reply frame; whoever owns
//! the transport sends the one and hands over the other.
use vstd::prelude::*;

use crate::protocol as proto;
use crate::protocol::core_op;
use crate::protocol::wire::Wire;
use crate::server::backend::{Call, Machine};
use crate::server::Session;
use crate::text;

pub mod amf;
pub mod cl;
pub mod cuda;
pub mod gl;
pub mod hip;
pub mod l0;
pub mod optix;
pub mod session;
pub mod sycl;
pub mod video;
pub mod vk;
pub mod wgpu;

pub use session::Client;

verus! {

broadcast use crate::protocol::bytes::lemma_append_to_empty;

/// Errors surfaced by the client session layer.
#[derive(Debug, PartialEq, Eq, Structural)]
pub enum ClientError {
    /// A frame could not be decoded.
    Protocol(proto::ProtocolError),
    /// The server replied with an unexpected opcode or kind.
    UnexpectedReply {
        /// Opcode the server sent.
        opcode: u32,
        /// Kind the server sent.
        kind: proto::FrameKind,
    },
}

/// The name of a frame kind.
pub open spec fn kind_name_of(kind: proto::FrameKind) -> Seq<char> {
    match kind {
        proto::FrameKind::Request => "Request"@,
        proto::FrameKind::Response => "Response"@,
        proto::FrameKind::Event => "Event"@,
    }
}

impl ClientError {
    /// The error in words.
    pub open spec fn text(&self) -> Seq<char> {
        match *self {
            ClientError::Protocol(e) => "protocol error: "@ + e.text(),
            ClientError::UnexpectedReply { opcode, kind } => "unexpected reply: opcode "@
                + text::hex_word(opcode) + ", kind "@ + kind_name_of(kind),
        }
    }

    /// Say the error in words.
    pub fn message(&self) -> (out: String)
        ensures
            out@ == self.text(),
    {
        let mut out = String::new();
        match self {
            ClientError::Protocol(e) => {
                out.append("protocol error: ");
                out.append(e.message().as_str());
            },
            ClientError::UnexpectedReply { opcode, kind } => {
                out.append("unexpected reply: opcode ");
                text::push_hex_word(&mut out, *opcode);
                out.append(", kind ");
                match kind {
                    proto::FrameKind::Request => {
                        out.append("Request");
                    },
                    proto::FrameKind::Response => {
                        out.append("Response");
                    },
                    proto::FrameKind::Event => {
                        out.append("Event");
                    },
                }
            },
        }
        assert(out@ =~= self.text());
        out
    }
}

/// Protocol version this client speaks.
pub fn protocol_version() -> (v: (u16, u16))
    ensures
        v == (proto::PROTOCOL_MAJOR, proto::PROTOCOL_MINOR),
{
    (proto::PROTOCOL_MAJOR, proto::PROTOCOL_MINOR)
}

/// The body of a reply to a request with the given opcode, or why the frame is
/// no such reply.
pub open spec fn reply_body(reply: Seq<u8>, opcode: u32) -> Result<Seq<u8>, ClientError> {
    match proto::frame::parse_frame(reply) {
        Err(e) => Err(ClientError::Protocol(e)),
        Ok((h, body)) => if h.opcode != opcode || h.kind != proto::FrameKind::Response {
            Err(ClientError::UnexpectedReply { opcode: h.opcode, kind: h.kind })
        } else {
            Ok(body)
        },
    }
}

/// Check that `reply` is a reply with the given opcode and return its body.
pub fn accept_reply(reply: &[u8], opcode: u32) -> (r: Result<&[u8], ClientError>)
    ensures
        match r {
            Ok(body) => reply_body(reply@, opcode) == Ok::<Seq<u8>, ClientError>(body@),
            Err(e) => reply_body(reply@, opcode) == Err::<Seq<u8>, ClientError>(e),
        },
{
    match proto::decode_frame(reply) {
        Err(e) => Err(ClientError::Protocol(e)),
        Ok((h, body)) => if h.opcode != opcode || h.kind != proto::FrameKind::Response {
            Err(ClientError::UnexpectedReply { opcode: h.opcode, kind: h.kind })
        } else {
            Ok(body)
        },
    }
}

/// A handle that must name an object of the given kind.
pub open spec fn handle_of_kind(h: proto::Handle, kind: u8) -> Result<proto::Handle, ClientError> {
    if h.spec_kind() == kind {
        Ok(h)
    } else {
        Err(ClientError::Protocol(proto::ProtocolError::BadKind(h.spec_kind() as u16)))
    }
}

/// Check that a handle names an object of the given kind.
pub fn check_kind(h: proto::Handle, kind: u8) -> (r: Result<proto::Handle, ClientError>)
    ensures
        r == handle_of_kind(h, kind),
{
    if h.kind() != kind {
        return Err(ClientError::Protocol(proto::ProtocolError::BadKind(h.kind() as u16)));
    }
    Ok(h)
}

/// A server accepts the frame of a request whose body fits the limit, and sees
/// its header and body as they were given.
pub proof fn law_request_passes(opcode: u32, req_id: u32, seq: u64, body: Seq<u8>, limit: u32)
    requires
        body.len() <= limit,
    ensures
        crate::server::session::screen(
            proto::frame::request_bytes(opcode, req_id, seq, body),
            limit,
        ) == Ok::<(proto::FrameHeader, Seq<u8>), proto::ProtocolError>(
            (
                proto::frame::plain_header(
                    proto::FrameKind::Request,
                    opcode,
                    req_id,
                    seq,
                    body.len() as u32,
                ),
                body,
            ),
        ),
{
    proto::frame::law_frame_round_trip(
        proto::frame::plain_header(
            proto::FrameKind::Request,
            opcode,
            req_id,
            seq,
            body.len() as u32,
        ),
        body,
    );
}

/// A client accepts the frame that a server replies with, and sees its body.
pub proof fn law_reply_accepted(opcode: u32, req_id: u32, seq: u64, body: Seq<u8>)
    ensures
        reply_body(proto::frame::reply_bytes(opcode, req_id, seq, body), opcode) == Ok::<
            Seq<u8>,
            ClientError,
        >(body),
{
    proto::frame::law_frame_round_trip(
        proto::frame::plain_header(
            proto::FrameKind::Response,
            opcode,
            req_id,
            seq,
            crate::protocol::bytes::low_u32(body.len()),
        ),
        body,
    );
}

/// A client refuses a reply to another opcode, and names the opcode it got.
pub proof fn law_wrong_opcode_refused(
    opcode: u32,
    other: u32,
    req_id: u32,
    seq: u64,
    body: Seq<u8>,
)
    requires
        other != opcode,
    ensures
        reply_body(proto::frame::reply_bytes(other, req_id, seq, body), opcode) == Err::<
            Seq<u8>,
            ClientError,
        >(ClientError::UnexpectedReply { opcode: other, kind: proto::FrameKind::Response }),
{
    proto::frame::law_frame_round_trip(
        proto::frame::plain_header(
            proto::FrameKind::Response,
            other,
            req_id,
            seq,
            crate::protocol::bytes::low_u32(body.len()),
        ),
        body,
    );
}

/// A call over the wire is a call of the backend: what a client reads back from
/// the session's reply is what the machine behind the call's namespace answers,
/// and the session goes on with the state that the call leads to. A call that
/// the machine refuses is refused with its error.
pub proof fn law_remote_call<S: Machine>(
    before: &Session,
    after: &Session,
    state: S,
    opcode: u32,
    req_id: u32,
    seq: u64,
    body: Seq<u8>,
    r: Result<Vec<u8>, proto::ProtocolError>,
)
    requires
        opcode != core_op::HELLO,
        opcode != core_op::NOOP,
        body.len() <= before.spec_max_frame_body(),
        crate::server::session::serves(before, proto::spec_opcode_api(opcode), state),
        crate::server::session::handled(
            before,
            after,
            proto::frame::request_bytes(opcode, req_id, seq, body),
            r,
        ),
    ensures
        ({
            let (next, answer) = state.step(Call { opcode, req_id, body });
            &&& crate::server::session::serves(after, proto::spec_opcode_api(opcode), next)
            &&& match answer {
                Ok(resp) => r matches Ok(reply) && reply_body(reply@, opcode) == Ok::<
                    Seq<u8>,
                    ClientError,
                >(resp),
                Err(e) => r == Err::<Vec<u8>, proto::ProtocolError>(e),
            }
        }),
{
    let frame = proto::frame::request_bytes(opcode, req_id, seq, body);
    law_request_passes(opcode, req_id, seq, body, before.spec_max_frame_body());
    crate::server::session::law_served_call(before, after, state, frame, r);
    if let Ok(resp) = state.step(Call { opcode, req_id, body }).1 {
        law_reply_accepted(opcode, req_id, before.spec_next_seq(), resp);
    }
}

/// The parameters that a client offers in its `Hello`.
pub open spec fn hello() -> proto::Hello {
    proto::Hello {
        proto_major: proto::PROTOCOL_MAJOR,
        proto_minor: proto::PROTOCOL_MINOR,
        features: 0,
        max_frame_body: proto::DEFAULT_MAX_FRAME_BODY,
    }
}

/// What a handshake yields on receiving `reply`.
pub open spec fn handshake_result(reply: Seq<u8>) -> Result<proto::Welcome, ClientError> {
    match reply_body(reply, core_op::WELCOME) {
        Err(e) => Err(e),
        Ok(body) => match proto::Welcome::parse(body) {
            Err(e) => Err(ClientError::Protocol(e)),
            Ok(welcome) => Ok(welcome),
        },
    }
}

/// The frame that opens the handshake: `Hello`, under the request id and
/// sequence number 1.
pub fn handshake_request() -> (frame: Vec<u8>)
    ensures
        frame@ == proto::frame::request_bytes(core_op::HELLO, 1, 1, hello().bytes()),
{
    let hello = proto::Hello {
        proto_major: proto::PROTOCOL_MAJOR,
        proto_minor: proto::PROTOCOL_MINOR,
        features: 0,
        max_frame_body: proto::DEFAULT_MAX_FRAME_BODY,
    };
    let mut body: Vec<u8> = Vec::new();
    hello.encode(&mut body);
    proto::frame::plain_frame(proto::FrameKind::Request, core_op::HELLO, 1, 1, &body)
}

/// Read the reply to the opening frame: `Welcome`.
pub fn handshake_reply(reply: &[u8]) -> (r: Result<proto::Welcome, ClientError>)
    ensures
        r == handshake_result(reply@),
{
    let body: &[u8] = accept_reply(reply, core_op::WELCOME)?;
    match proto::Welcome::decode(body) {
        Ok(welcome) => Ok(welcome),
        Err(e) => Err(ClientError::Protocol(e)),
    }
}

/// What a no-op yields on receiving `reply`.
pub open spec fn noop_result(reply: Seq<u8>) -> Result<(), ClientError> {
    match reply_body(reply, core_op::NOOP) {
        Err(e) => Err(e),
        Ok(_) => Ok(()),
    }
}

/// The frame of a no-op request.
pub fn noop_request(req_id: u32, seq: u64) -> (frame: Vec<u8>)
    ensures
        frame@ == proto::frame::request_bytes(core_op::NOOP, req_id, seq, seq![]),
{
    let body: Vec<u8> = Vec::new();
    proto::frame::plain_frame(proto::FrameKind::Request, core_op::NOOP, req_id, seq, &body)
}

/// Read the reply to a no-op. Validates the pipe round-trip.
pub fn noop_reply(reply: &[u8]) -> (r: Result<(), ClientError>)
    ensures
        r == noop_result(reply@),
{
    let _body: &[u8] = accept_reply(reply, core_op::NOOP)?;
    Ok(())
}

/// The handshake completes: the frame that a client opens with passes a server,
/// and the client takes the welcome that the server answers with.
pub proof fn law_handshake(welcome: proto::Welcome, req_id: u32, seq: u64)
    ensures
        crate::server::session::screen(
            proto::frame::request_bytes(core_op::HELLO, 1, 1, hello().bytes()),
            proto::DEFAULT_MAX_FRAME_BODY,
        ) matches Ok((h, body)) && h.opcode == core_op::HELLO && h.req_id == 1
            && proto::Hello::parse(body) == Ok::<proto::Hello, proto::ProtocolError>(hello()),
        handshake_result(
            proto::frame::reply_bytes(core_op::WELCOME, req_id, seq, welcome.bytes()),
        ) == Ok::<proto::Welcome, ClientError>(welcome),
{
    broadcast use crate::protocol::bytes::group_le_len;

    law_request_passes(core_op::HELLO, 1, 1, hello().bytes(), proto::DEFAULT_MAX_FRAME_BODY);
    hello().law_whole();
    law_reply_accepted(core_op::WELCOME, req_id, seq, welcome.bytes());
    welcome.law_whole();
}

/// A client expects of a handle the kind that the backends issue for such objects,
/// and every kind of object has a kind of its own, by which the tens tell the APIs
/// apart.
pub proof fn law_kinds_agree()
    ensures
        vk::KIND_INSTANCE == 1,
        vk::KIND_PHYSICAL_DEVICE == 2,
        vk::KIND_DEVICE == 3,
        vk::KIND_QUEUE == 4,
        vk::KIND_DEVICE_MEMORY == 5,
        vk::KIND_BUFFER == 6,
        vk::KIND_COMMAND_POOL == 7,
        vk::KIND_COMMAND_BUFFER == 8,
        gl::KIND_GL_CONTEXT == 10,
        gl::KIND_GL_BUFFER == 11,
        cuda::KIND_CUDA_CONTEXT == 20,
        cuda::KIND_CUDA_DEVICE_PTR == 21,
        hip::KIND_HIP_DEVICE_PTR == 30,
        hip::KIND_HIP_STREAM == 31,
        cl::KIND_CL_CONTEXT == 40,
        cl::KIND_CL_MEM == 41,
        l0::KIND_CONTEXT == 50,
        l0::KIND_DEVICE_MEM == 51,
        video::KIND_VIDEO_SESSION == 60,
        wgpu::KIND_WGPU_DEVICE == 70,
        wgpu::KIND_WGPU_BUFFER == 71,
        optix::KIND_OPTIX_CONTEXT == 80,
        optix::KIND_OPTIX_PIPELINE == 81,
        sycl::KIND_SYCL_QUEUE == 90,
        sycl::KIND_SYCL_DEVICE_PTR == 91,
        amf::KIND_AMF_ENCODER == 100,
        crate::server::vk_backend::KIND_INSTANCE == 1,
        crate::server::vk_backend::KIND_PHYSICAL_DEVICE == 2,
        crate::server::vk_backend::KIND_DEVICE == 3,
        crate::server::vk_backend::KIND_QUEUE == 4,
        crate::server::vk_backend::KIND_DEVICE_MEMORY == 5,
        crate::server::vk_backend::KIND_BUFFER == 6,
        crate::server::gl_backend::KIND_GL_CONTEXT == 10,
        crate::server::gl_backend::KIND_GL_BUFFER == 11,
        crate::server::cuda_backend::KIND_CUDA_CONTEXT == 20,
        crate::server::cuda_backend::KIND_CUDA_DEVICE_PTR == 21,
        crate::server::hip_backend::KIND_HIP_DEVICE_PTR == 30,
        crate::server::hip_backend::KIND_HIP_STREAM == 31,
        crate::server::cl_backend::KIND_CL_CONTEXT == 40,
        crate::server::cl_backend::KIND_CL_MEM == 41,
        crate::server::l0_backend::KIND_L0_CONTEXT == 50,
        crate::server::l0_backend::KIND_L0_DEVICE_MEM == 51,
        crate::server::video_backend::KIND_VIDEO_SESSION == 60,
        crate::server::wgpu_backend::KIND_WGPU_DEVICE == 70,
        crate::server::wgpu_backend::KIND_WGPU_BUFFER == 71,
        crate::server::optix_backend::KIND_OPTIX_CONTEXT == 80,
        crate::server::optix_backend::KIND_OPTIX_PIPELINE == 81,
        crate::server::sycl_backend::KIND_SYCL_QUEUE == 90,
        crate::server::sycl_backend::KIND_SYCL_DEVICE_PTR == 91,
        crate::server::amf_backend::KIND_AMF_ENCODER == 100,
{
}

/// The handshake is read by the opcode and the kind of the reply, and by its body:
/// a response under `WELCOME` yields the welcome that it carries, whatever follows
/// it, and is refused as an unexpected end where the body is too short for one. Any
/// other frame is refused as unexpected, and what is no frame for the reason that
/// it is none. A no-op is acknowledged by a response under its opcode alone.
pub proof fn law_core_replies(
    h: proto::FrameHeader,
    welcome: proto::Welcome,
    rest: Seq<u8>,
    body: Seq<u8>,
    garbled: Seq<u8>,
)
    ensures
        h.opcode == core_op::WELCOME && h.kind == proto::FrameKind::Response ==> {
            &&& handshake_result(proto::frame::frame_bytes(h, welcome.bytes() + rest)) == Ok::<
                proto::Welcome,
                ClientError,
            >(welcome)
            &&& body.len() < 20 ==> handshake_result(proto::frame::frame_bytes(h, body)) == Err::<
                proto::Welcome,
                ClientError,
            >(ClientError::Protocol(proto::ProtocolError::UnexpectedEof))
        },
        h.opcode != core_op::WELCOME || h.kind != proto::FrameKind::Response ==> handshake_result(
            proto::frame::frame_bytes(h, body),
        ) == Err::<proto::Welcome, ClientError>(
            ClientError::UnexpectedReply { opcode: h.opcode, kind: h.kind },
        ),
        proto::frame::parse_frame(garbled) matches Err(e) ==> handshake_result(garbled) == Err::<
            proto::Welcome,
            ClientError,
        >(ClientError::Protocol(e)),
        h.opcode == core_op::NOOP && h.kind == proto::FrameKind::Response ==> noop_result(
            proto::frame::frame_bytes(h, body),
        ) == Ok::<(), ClientError>(()),
        h.opcode != core_op::NOOP || h.kind != proto::FrameKind::Response ==> noop_result(
            proto::frame::frame_bytes(h, body),
        ) == Err::<(), ClientError>(
            ClientError::UnexpectedReply { opcode: h.opcode, kind: h.kind },
        ),
        proto::frame::parse_frame(garbled) matches Err(e) ==> noop_result(garbled) == Err::<
            (),
            ClientError,
        >(ClientError::Protocol(e)),
{
    proto::frame::law_frame_round_trip(h, welcome.bytes() + rest);
    proto::frame::law_frame_round_trip(h, body);
    welcome.law_round_trip(rest);
}

/// A client and a server agree on what a handshake has settled: of any session
/// that takes the client's opening frame, the client reads a welcome with the
/// session's id, and with the limit that the session keeps to from then on, which
/// is the 1 MiB that the client offers.
pub proof fn law_handshake_agrees(
    before: &Session,
    after: &Session,
    r: Result<Vec<u8>, proto::ProtocolError>,
)
    requires
        crate::server::session::handled(
            before,
            after,
            proto::frame::request_bytes(core_op::HELLO, 1, 1, hello().bytes()),
            r,
        ),
        before.spec_max_frame_body() >= 12,
    ensures
        r matches Ok(reply) && handshake_result(reply@) matches Ok(welcome) && {
            &&& welcome.session_id == before.spec_session_id()
            &&& welcome.max_frame_body == after.spec_max_frame_body()
            &&& welcome.max_frame_body == 1024 * 1024
            &&& welcome.proto_major == proto::PROTOCOL_MAJOR
            &&& welcome.proto_minor == proto::PROTOCOL_MINOR
        },
        after.spec_handshook(),
{
    broadcast use crate::protocol::bytes::group_le_len;

    let h = proto::frame::plain_header(proto::FrameKind::Request, core_op::HELLO, 1, 1, 12);
    let none = Seq::<u8>::empty();
    assert(hello().bytes() + none =~= hello().bytes());
    crate::server::session::law_hello_negotiates(before, after, h, hello(), none, r);
}

/// An error of a client in words tells what came: the protocol error behind it, or
/// the opcode and the kind of the reply, the opcode reading back as it was.
pub proof fn law_error_text_reads_back(e: proto::ProtocolError, opcode: u32)
    ensures
        ClientError::Protocol(e).text() == "protocol error: "@ + e.text(),
        forall|kind: proto::FrameKind|
            exists|word: Seq<char>|
                {
                    &&& (#[trigger] (ClientError::UnexpectedReply { opcode, kind }).text())
                        == "unexpected reply: opcode "@ + ("0x"@ + word) + ", kind "@ + (
                    match kind {
                        proto::FrameKind::Request => "Request"@,
                        proto::FrameKind::Response => "Response"@,
                        proto::FrameKind::Event => "Event"@,
                    })
                    &&& word.len() == 8
                    &&& #[trigger] text::hex_value(word) == opcode
                },
{
    text::law_hex_word_reads_back(opcode);
    let word = choose|word: Seq<char>|
        {
            &&& text::hex_word(opcode) == "0x"@ + word
            &&& word.len() == 8
            &&& #[trigger] text::hex_value(word) == opcode
        };
    assert(text::hex_value(word) == opcode);
}

/// A client opens with a `HELLO` under the request id and sequence number 1 that
/// offers its protocol version, no features, and 1 MiB as its frame body limit; a
/// no-op is a request without a body under the given ids.
pub proof fn law_core_requests(hello: Vec<u8>, noop: Vec<u8>, req_id: u32, seq: u64)
    requires
        call_ensures(handshake_request, (), hello),
        call_ensures(noop_request, (req_id, seq), noop),
    ensures
        proto::frame::parse_frame(hello@) matches Ok((h, body)) && {
            &&& h.kind == proto::FrameKind::Request
            &&& h.opcode == 1
            &&& h.req_id == 1
            &&& h.seq == 1
            &&& h.body_len == 12
            &&& body.len() == 12
            &&& proto::bytes::u16_at(body, 0) == proto::PROTOCOL_MAJOR
            &&& proto::bytes::u16_at(body, 2) == proto::PROTOCOL_MINOR
            &&& proto::bytes::u32_at(body, 4) == 0
            &&& proto::bytes::u32_at(body, 8) == 1024 * 1024
        },
        proto::frame::parse_frame(noop@) matches Ok((h, body)) && {
            &&& h.kind == proto::FrameKind::Request
            &&& h.opcode == 3
            &&& h.req_id == req_id
            &&& h.seq == seq
            &&& h.body_len == 0
            &&& body.len() == 0
        },
{
    proto::handshake::law_hello_layout(self::hello());
    proto::frame::law_made_frames(core_op::HELLO, 1, 1, self::hello().bytes());
    proto::frame::law_made_frames(core_op::NOOP, req_id, seq, seq![]);
}

} // verus!
