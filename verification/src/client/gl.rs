//! OpenGL client shim.
//!
//! Builds the request frames of the OpenGL entrypoints and reads the frames
//! that the server's OpenGL backend replies with. Pure Rust: no driver, no
//! GPU.
use vstd::prelude::*;

use super::ClientError;
use crate::protocol as proto;
use crate::protocol::gl;
use crate::protocol::gl_op;
use crate::protocol::wire::Wire;
use crate::protocol::Handle;

verus! {

broadcast use crate::protocol::bytes::lemma_append_to_empty;

/// Server object kind for a GL context handle.
pub const KIND_GL_CONTEXT: u8 = 10;

/// Server object kind for a GL buffer handle.
pub const KIND_GL_BUFFER: u8 = 11;

/// The request frame of [`gl_op::CREATE_CONTEXT`], with which to issue a
/// context-creation call.
pub fn create_context_request(req_id: u32, seq: u64) -> (frame: Vec<u8>)
    ensures
        frame@ == proto::frame::request_bytes(
            gl_op::CREATE_CONTEXT,
            req_id,
            seq,
            seq![],
        ),
{
    let body: Vec<u8> = Vec::new();
    proto::frame::plain_frame(
        proto::FrameKind::Request,
        gl_op::CREATE_CONTEXT,
        req_id,
        seq,
        &body,
    )
}

/// What [`gl_op::CREATE_CONTEXT`] yields on receiving `reply`.
pub open spec fn create_context_result(reply: Seq<u8>) -> Result<Handle, ClientError> {
    match super::reply_body(reply, gl_op::CREATE_CONTEXT) {
        Err(e) => Err(e),
        Ok(body) => match gl::CreateContextResponse::parse(body) {
            Err(e) => Err(ClientError::Protocol(e)),
            Ok(resp) => super::handle_of_kind(resp.context, KIND_GL_CONTEXT),
        },
    }
}

/// Read the reply to [`gl_op::CREATE_CONTEXT`]: validate its opcode and kind,
/// decode the handle, and verify that it names an object of the right kind.
pub fn create_context_reply(reply: &[u8]) -> (r: Result<Handle, ClientError>)
    ensures
        r == create_context_result(reply@),
{
    let body: &[u8] = super::accept_reply(reply, gl_op::CREATE_CONTEXT)?;
    match gl::CreateContextResponse::decode(body) {
        Err(e) => Err(ClientError::Protocol(e)),
        Ok(resp) => super::check_kind(resp.context, KIND_GL_CONTEXT),
    }
}

/// The request for [`gl_op::CREATE_CONTEXT`] reaches a server as it was made,
/// and what the server answers is what the caller gets.
pub proof fn law_create_context_exchange(
    answer: Handle,
    req_id: u32,
    seq: u64,
    reply_seq: u64,
)
    requires
        answer.spec_kind() == KIND_GL_CONTEXT,
    ensures
        crate::server::session::screen(
            proto::frame::request_bytes(
                gl_op::CREATE_CONTEXT,
                req_id,
                seq,
                seq![],
            ),
            proto::DEFAULT_MAX_FRAME_BODY,
        ) matches Ok((h, body)) && h.opcode == gl_op::CREATE_CONTEXT && h.req_id == req_id
            && body.len() == 0,
        create_context_result(
            proto::frame::reply_bytes(
                gl_op::CREATE_CONTEXT,
                req_id,
                reply_seq,
                (gl::CreateContextResponse { context: answer }).bytes(),
            ),
        ) == Ok::<Handle, ClientError>(answer),
{
    broadcast use crate::protocol::bytes::group_le_len;

    super::law_request_passes(
        gl_op::CREATE_CONTEXT,
        req_id,
        seq,
        seq![],
        proto::DEFAULT_MAX_FRAME_BODY,
    );
    let resp = gl::CreateContextResponse { context: answer };
    super::law_reply_accepted(gl_op::CREATE_CONTEXT, req_id, reply_seq, resp.bytes());
    resp.law_whole();
}

/// The request frame of [`gl_op::MAKE_CURRENT`], with which to issue a
/// make-current call for `context`.
pub fn make_current_request(context: Handle, req_id: u32, seq: u64) -> (frame: Vec<u8>)
    ensures
        frame@ == proto::frame::request_bytes(
            gl_op::MAKE_CURRENT,
            req_id,
            seq,
            (gl::MakeCurrentRequest { context }).bytes(),
        ),
{
    let mut body: Vec<u8> = Vec::new();
    (gl::MakeCurrentRequest { context }).encode(&mut body);
    proto::frame::plain_frame(proto::FrameKind::Request, gl_op::MAKE_CURRENT, req_id, seq, &body)
}

/// What [`gl_op::MAKE_CURRENT`] yields on receiving `reply`.
pub open spec fn make_current_result(reply: Seq<u8>) -> Result<(), ClientError> {
    match super::reply_body(reply, gl_op::MAKE_CURRENT) {
        Err(e) => Err(e),
        Ok(_) => Ok(()),
    }
}

/// Read the reply to [`gl_op::MAKE_CURRENT`]: validate its opcode and kind.
/// The reply body is an empty acknowledgement, so nothing is decoded.
pub fn make_current_reply(reply: &[u8]) -> (r: Result<(), ClientError>)
    ensures
        r == make_current_result(reply@),
{
    let _body: &[u8] = super::accept_reply(reply, gl_op::MAKE_CURRENT)?;
    Ok(())
}

/// The request for [`gl_op::MAKE_CURRENT`] reaches a server as it was made,
/// and what the server answers is what the caller gets.
pub proof fn law_make_current_exchange(context: Handle, req_id: u32, seq: u64, reply_seq: u64)
    ensures
        crate::server::session::screen(
            proto::frame::request_bytes(
                gl_op::MAKE_CURRENT,
                req_id,
                seq,
                (gl::MakeCurrentRequest { context }).bytes(),
            ),
            proto::DEFAULT_MAX_FRAME_BODY,
        ) matches Ok((h, body)) && h.opcode == gl_op::MAKE_CURRENT && h.req_id == req_id
            && gl::MakeCurrentRequest::parse(body) == Ok::<
            gl::MakeCurrentRequest,
            proto::ProtocolError,
        >(
            gl::MakeCurrentRequest { context },
        ),
        make_current_result(
            proto::frame::reply_bytes(
                gl_op::MAKE_CURRENT,
                req_id,
                reply_seq,
                seq![],
            ),
        ) == Ok::<(), ClientError>(()),
{
    broadcast use crate::protocol::bytes::group_le_len;

    let req = gl::MakeCurrentRequest { context };
    super::law_request_passes(
        gl_op::MAKE_CURRENT,
        req_id,
        seq,
        req.bytes(),
        proto::DEFAULT_MAX_FRAME_BODY,
    );
    req.law_whole();
    super::law_reply_accepted(gl_op::MAKE_CURRENT, req_id, reply_seq, seq![]);
}

/// The request frame of [`gl_op::GEN_BUFFER`], with which to issue a
/// buffer-generation call in `context`.
pub fn gen_buffer_request(context: Handle, req_id: u32, seq: u64) -> (frame: Vec<u8>)
    ensures
        frame@ == proto::frame::request_bytes(
            gl_op::GEN_BUFFER,
            req_id,
            seq,
            (gl::GenBufferRequest { context }).bytes(),
        ),
{
    let mut body: Vec<u8> = Vec::new();
    (gl::GenBufferRequest { context }).encode(&mut body);
    proto::frame::plain_frame(proto::FrameKind::Request, gl_op::GEN_BUFFER, req_id, seq, &body)
}

/// What [`gl_op::GEN_BUFFER`] yields on receiving `reply`.
pub open spec fn gen_buffer_result(reply: Seq<u8>) -> Result<Handle, ClientError> {
    match super::reply_body(reply, gl_op::GEN_BUFFER) {
        Err(e) => Err(e),
        Ok(body) => match gl::GenBufferResponse::parse(body) {
            Err(e) => Err(ClientError::Protocol(e)),
            Ok(resp) => super::handle_of_kind(resp.buffer, KIND_GL_BUFFER),
        },
    }
}

/// Read the reply to [`gl_op::GEN_BUFFER`]: validate its opcode and kind,
/// decode the handle, and verify that it names an object of the right kind.
pub fn gen_buffer_reply(reply: &[u8]) -> (r: Result<Handle, ClientError>)
    ensures
        r == gen_buffer_result(reply@),
{
    let body: &[u8] = super::accept_reply(reply, gl_op::GEN_BUFFER)?;
    match gl::GenBufferResponse::decode(body) {
        Err(e) => Err(ClientError::Protocol(e)),
        Ok(resp) => super::check_kind(resp.buffer, KIND_GL_BUFFER),
    }
}

/// The request for [`gl_op::GEN_BUFFER`] reaches a server as it was made, and
/// what the server answers is what the caller gets.
pub proof fn law_gen_buffer_exchange(
    context: Handle,
    answer: Handle,
    req_id: u32,
    seq: u64,
    reply_seq: u64,
)
    requires
        answer.spec_kind() == KIND_GL_BUFFER,
    ensures
        crate::server::session::screen(
            proto::frame::request_bytes(
                gl_op::GEN_BUFFER,
                req_id,
                seq,
                (gl::GenBufferRequest { context }).bytes(),
            ),
            proto::DEFAULT_MAX_FRAME_BODY,
        ) matches Ok((h, body)) && h.opcode == gl_op::GEN_BUFFER && h.req_id == req_id
            && gl::GenBufferRequest::parse(body) == Ok::<
            gl::GenBufferRequest,
            proto::ProtocolError,
        >(
            gl::GenBufferRequest { context },
        ),
        gen_buffer_result(
            proto::frame::reply_bytes(
                gl_op::GEN_BUFFER,
                req_id,
                reply_seq,
                (gl::GenBufferResponse { buffer: answer }).bytes(),
            ),
        ) == Ok::<Handle, ClientError>(answer),
{
    broadcast use crate::protocol::bytes::group_le_len;

    let req = gl::GenBufferRequest { context };
    super::law_request_passes(
        gl_op::GEN_BUFFER,
        req_id,
        seq,
        req.bytes(),
        proto::DEFAULT_MAX_FRAME_BODY,
    );
    req.law_whole();
    let resp = gl::GenBufferResponse { buffer: answer };
    super::law_reply_accepted(gl_op::GEN_BUFFER, req_id, reply_seq, resp.bytes());
    resp.law_whole();
}

/// The request frame of [`gl_op::SWAP_BUFFERS`], with which to issue a
/// buffer-swap call for `context`.
pub fn swap_buffers_request(context: Handle, req_id: u32, seq: u64) -> (frame: Vec<u8>)
    ensures
        frame@ == proto::frame::request_bytes(
            gl_op::SWAP_BUFFERS,
            req_id,
            seq,
            (gl::SwapBuffersRequest { context }).bytes(),
        ),
{
    let mut body: Vec<u8> = Vec::new();
    (gl::SwapBuffersRequest { context }).encode(&mut body);
    proto::frame::plain_frame(proto::FrameKind::Request, gl_op::SWAP_BUFFERS, req_id, seq, &body)
}

/// What [`gl_op::SWAP_BUFFERS`] yields on receiving `reply`.
pub open spec fn swap_buffers_result(reply: Seq<u8>) -> Result<(), ClientError> {
    match super::reply_body(reply, gl_op::SWAP_BUFFERS) {
        Err(e) => Err(e),
        Ok(_) => Ok(()),
    }
}

/// Read the reply to [`gl_op::SWAP_BUFFERS`]: validate its opcode and kind.
/// The reply body is an empty acknowledgement, so nothing is decoded.
pub fn swap_buffers_reply(reply: &[u8]) -> (r: Result<(), ClientError>)
    ensures
        r == swap_buffers_result(reply@),
{
    let _body: &[u8] = super::accept_reply(reply, gl_op::SWAP_BUFFERS)?;
    Ok(())
}

/// The request for [`gl_op::SWAP_BUFFERS`] reaches a server as it was made,
/// and what the server answers is what the caller gets.
pub proof fn law_swap_buffers_exchange(context: Handle, req_id: u32, seq: u64, reply_seq: u64)
    ensures
        crate::server::session::screen(
            proto::frame::request_bytes(
                gl_op::SWAP_BUFFERS,
                req_id,
                seq,
                (gl::SwapBuffersRequest { context }).bytes(),
            ),
            proto::DEFAULT_MAX_FRAME_BODY,
        ) matches Ok((h, body)) && h.opcode == gl_op::SWAP_BUFFERS && h.req_id == req_id
            && gl::SwapBuffersRequest::parse(body) == Ok::<
            gl::SwapBuffersRequest,
            proto::ProtocolError,
        >(
            gl::SwapBuffersRequest { context },
        ),
        swap_buffers_result(
            proto::frame::reply_bytes(
                gl_op::SWAP_BUFFERS,
                req_id,
                reply_seq,
                seq![],
            ),
        ) == Ok::<(), ClientError>(()),
{
    broadcast use crate::protocol::bytes::group_le_len;

    let req = gl::SwapBuffersRequest { context };
    super::law_request_passes(
        gl_op::SWAP_BUFFERS,
        req_id,
        seq,
        req.bytes(),
        proto::DEFAULT_MAX_FRAME_BODY,
    );
    req.law_whole();
    super::law_reply_accepted(gl_op::SWAP_BUFFERS, req_id, reply_seq, seq![]);
}

/// The request frame of [`gl_op::DELETE_BUFFER`], with which to issue a
/// buffer-deletion call for `buffer`.
pub fn delete_buffer_request(buffer: Handle, req_id: u32, seq: u64) -> (frame: Vec<u8>)
    ensures
        frame@ == proto::frame::request_bytes(
            gl_op::DELETE_BUFFER,
            req_id,
            seq,
            (gl::DeleteBufferRequest { buffer }).bytes(),
        ),
{
    let mut body: Vec<u8> = Vec::new();
    (gl::DeleteBufferRequest { buffer }).encode(&mut body);
    proto::frame::plain_frame(proto::FrameKind::Request, gl_op::DELETE_BUFFER, req_id, seq, &body)
}

/// What [`gl_op::DELETE_BUFFER`] yields on receiving `reply`.
pub open spec fn delete_buffer_result(reply: Seq<u8>) -> Result<(), ClientError> {
    match super::reply_body(reply, gl_op::DELETE_BUFFER) {
        Err(e) => Err(e),
        Ok(_) => Ok(()),
    }
}

/// Read the reply to [`gl_op::DELETE_BUFFER`]: validate its opcode and kind.
/// The reply body is an empty acknowledgement, so nothing is decoded.
pub fn delete_buffer_reply(reply: &[u8]) -> (r: Result<(), ClientError>)
    ensures
        r == delete_buffer_result(reply@),
{
    let _body: &[u8] = super::accept_reply(reply, gl_op::DELETE_BUFFER)?;
    Ok(())
}

/// The request for [`gl_op::DELETE_BUFFER`] reaches a server as it was made,
/// and what the server answers is what the caller gets.
pub proof fn law_delete_buffer_exchange(buffer: Handle, req_id: u32, seq: u64, reply_seq: u64)
    ensures
        crate::server::session::screen(
            proto::frame::request_bytes(
                gl_op::DELETE_BUFFER,
                req_id,
                seq,
                (gl::DeleteBufferRequest { buffer }).bytes(),
            ),
            proto::DEFAULT_MAX_FRAME_BODY,
        ) matches Ok((h, body)) && h.opcode == gl_op::DELETE_BUFFER && h.req_id == req_id
            && gl::DeleteBufferRequest::parse(body) == Ok::<
            gl::DeleteBufferRequest,
            proto::ProtocolError,
        >(
            gl::DeleteBufferRequest { buffer },
        ),
        delete_buffer_result(
            proto::frame::reply_bytes(
                gl_op::DELETE_BUFFER,
                req_id,
                reply_seq,
                seq![],
            ),
        ) == Ok::<(), ClientError>(()),
{
    broadcast use crate::protocol::bytes::group_le_len;

    let req = gl::DeleteBufferRequest { buffer };
    super::law_request_passes(
        gl_op::DELETE_BUFFER,
        req_id,
        seq,
        req.bytes(),
        proto::DEFAULT_MAX_FRAME_BODY,
    );
    req.law_whole();
    super::law_reply_accepted(gl_op::DELETE_BUFFER, req_id, reply_seq, seq![]);
}

/// The reply to [`gl_op::CREATE_CONTEXT`] is read by its opcode, its kind and its
/// body alone. A response under that opcode yields the handle it carries if that is
/// of the right kind, and is refused by the kind if not; where the body is too
/// short for a handle it is refused as an unexpected end. Any other frame is
/// refused as unexpected, and what is no frame for the reason that it is none.
pub proof fn law_create_context_reply(
    h: proto::FrameHeader,
    answer: Handle,
    rest: Seq<u8>,
    body: Seq<u8>,
    garbled: Seq<u8>,
)
    ensures
        h.opcode == gl_op::CREATE_CONTEXT && h.kind == proto::FrameKind::Response ==> {
            &&& create_context_result(
                proto::frame::frame_bytes(
                    h,
                    (gl::CreateContextResponse { context: answer }).bytes() + rest,
                ),
            ) == if answer.spec_kind() == KIND_GL_CONTEXT {
                Ok::<Handle, ClientError>(answer)
            } else {
                Err::<Handle, ClientError>(
                    ClientError::Protocol(
                        proto::ProtocolError::BadKind(answer.spec_kind() as u16),
                    ),
                )
            }
            &&& body.len() < 8
                ==> create_context_result(proto::frame::frame_bytes(h, body)) == Err::<
                Handle,
                ClientError,
            >(ClientError::Protocol(proto::ProtocolError::UnexpectedEof))
        },
        h.opcode != gl_op::CREATE_CONTEXT || h.kind != proto::FrameKind::Response
            ==> create_context_result(
            proto::frame::frame_bytes(h, body),
        ) == Err::<Handle, ClientError>(
            ClientError::UnexpectedReply { opcode: h.opcode, kind: h.kind },
        ),
        proto::frame::parse_frame(garbled) matches Err(e)
            ==> create_context_result(garbled) == Err::<
            Handle,
            ClientError,
        >(ClientError::Protocol(e)),
{
    let resp = gl::CreateContextResponse { context: answer };
    resp.law_round_trip(rest);
    proto::frame::law_frame_round_trip(h, resp.bytes() + rest);
    proto::frame::law_frame_round_trip(h, body);
}

/// The reply to [`gl_op::MAKE_CURRENT`] is read by its opcode and its kind alone: a
/// response under that opcode is an acknowledgement. Any other frame is refused as
/// unexpected, and what is no frame for the reason that it is none.
pub proof fn law_make_current_reply(
    h: proto::FrameHeader,
    body: Seq<u8>,
    garbled: Seq<u8>,
)
    ensures
        h.opcode == gl_op::MAKE_CURRENT && h.kind == proto::FrameKind::Response ==> {
            make_current_result(proto::frame::frame_bytes(h, body)) == Ok::<(), ClientError>(())
        },
        h.opcode != gl_op::MAKE_CURRENT || h.kind != proto::FrameKind::Response
            ==> make_current_result(
            proto::frame::frame_bytes(h, body),
        ) == Err::<(), ClientError>(
            ClientError::UnexpectedReply { opcode: h.opcode, kind: h.kind },
        ),
        proto::frame::parse_frame(garbled) matches Err(e) ==> make_current_result(garbled) == Err::<
            (),
            ClientError,
        >(ClientError::Protocol(e)),
{
    proto::frame::law_frame_round_trip(h, body);
}

/// The reply to [`gl_op::GEN_BUFFER`] is read by its opcode, its kind and its body
/// alone. A response under that opcode yields the handle it carries if that is of
/// the right kind, and is refused by the kind if not; where the body is too short
/// for a handle it is refused as an unexpected end. Any other frame is refused as
/// unexpected, and what is no frame for the reason that it is none.
pub proof fn law_gen_buffer_reply(
    h: proto::FrameHeader,
    answer: Handle,
    rest: Seq<u8>,
    body: Seq<u8>,
    garbled: Seq<u8>,
)
    ensures
        h.opcode == gl_op::GEN_BUFFER && h.kind == proto::FrameKind::Response ==> {
            &&& gen_buffer_result(
                proto::frame::frame_bytes(
                    h,
                    (gl::GenBufferResponse { buffer: answer }).bytes() + rest,
                ),
            ) == if answer.spec_kind() == KIND_GL_BUFFER {
                Ok::<Handle, ClientError>(answer)
            } else {
                Err::<Handle, ClientError>(
                    ClientError::Protocol(
                        proto::ProtocolError::BadKind(answer.spec_kind() as u16),
                    ),
                )
            }
            &&& body.len() < 8 ==> gen_buffer_result(proto::frame::frame_bytes(h, body)) == Err::<
                Handle,
                ClientError,
            >(ClientError::Protocol(proto::ProtocolError::UnexpectedEof))
        },
        h.opcode != gl_op::GEN_BUFFER || h.kind != proto::FrameKind::Response ==> gen_buffer_result(
            proto::frame::frame_bytes(h, body),
        ) == Err::<Handle, ClientError>(
            ClientError::UnexpectedReply { opcode: h.opcode, kind: h.kind },
        ),
        proto::frame::parse_frame(garbled) matches Err(e) ==> gen_buffer_result(garbled) == Err::<
            Handle,
            ClientError,
        >(ClientError::Protocol(e)),
{
    let resp = gl::GenBufferResponse { buffer: answer };
    resp.law_round_trip(rest);
    proto::frame::law_frame_round_trip(h, resp.bytes() + rest);
    proto::frame::law_frame_round_trip(h, body);
}

/// The reply to [`gl_op::SWAP_BUFFERS`] is read by its opcode and its kind alone: a
/// response under that opcode is an acknowledgement. Any other frame is refused as
/// unexpected, and what is no frame for the reason that it is none.
pub proof fn law_swap_buffers_reply(
    h: proto::FrameHeader,
    body: Seq<u8>,
    garbled: Seq<u8>,
)
    ensures
        h.opcode == gl_op::SWAP_BUFFERS && h.kind == proto::FrameKind::Response ==> {
            swap_buffers_result(proto::frame::frame_bytes(h, body)) == Ok::<(), ClientError>(())
        },
        h.opcode != gl_op::SWAP_BUFFERS || h.kind != proto::FrameKind::Response
            ==> swap_buffers_result(
            proto::frame::frame_bytes(h, body),
        ) == Err::<(), ClientError>(
            ClientError::UnexpectedReply { opcode: h.opcode, kind: h.kind },
        ),
        proto::frame::parse_frame(garbled) matches Err(e) ==> swap_buffers_result(garbled) == Err::<
            (),
            ClientError,
        >(ClientError::Protocol(e)),
{
    proto::frame::law_frame_round_trip(h, body);
}

/// The reply to [`gl_op::DELETE_BUFFER`] is read by its opcode and its kind alone:
/// a response under that opcode is an acknowledgement. Any other frame is refused
/// as unexpected, and what is no frame for the reason that it is none.
pub proof fn law_delete_buffer_reply(
    h: proto::FrameHeader,
    body: Seq<u8>,
    garbled: Seq<u8>,
)
    ensures
        h.opcode == gl_op::DELETE_BUFFER && h.kind == proto::FrameKind::Response ==> {
            delete_buffer_result(proto::frame::frame_bytes(h, body)) == Ok::<(), ClientError>(())
        },
        h.opcode != gl_op::DELETE_BUFFER || h.kind != proto::FrameKind::Response
            ==> delete_buffer_result(
            proto::frame::frame_bytes(h, body),
        ) == Err::<(), ClientError>(
            ClientError::UnexpectedReply { opcode: h.opcode, kind: h.kind },
        ),
        proto::frame::parse_frame(garbled) matches Err(e)
            ==> delete_buffer_result(garbled) == Err::<
            (),
            ClientError,
        >(ClientError::Protocol(e)),
{
    proto::frame::law_frame_round_trip(h, body);
}

/// The request frame of [`gl_op::CREATE_CONTEXT`] carries what it was asked for: a
/// request under that opcode, the given request id and sequence number, and a body
/// of nothing.
pub proof fn law_create_context_request(
    req_id: u32,
    seq: u64,
    frame: Vec<u8>,
)
    requires
        call_ensures(create_context_request, (req_id, seq), frame),
    ensures
        proto::frame::parse_frame(frame@) matches Ok((h, body)) && {
            &&& h.kind == proto::FrameKind::Request
            &&& h.opcode == 0x0200_0001
            &&& h.req_id == req_id
            &&& h.seq == seq
            &&& h.body_len == 0
            &&& body.len() == 0
        },
{
    proto::frame::law_made_frames(gl_op::CREATE_CONTEXT, req_id, seq, seq![]);
}

/// The request frame of [`gl_op::MAKE_CURRENT`] carries what it was asked for: a
/// request under that opcode, the given request id and sequence number, and a body
/// of nothing but the arguments, in order.
pub proof fn law_make_current_request(
    context: Handle,
    req_id: u32,
    seq: u64,
    frame: Vec<u8>,
)
    requires
        call_ensures(make_current_request, (context, req_id, seq), frame),
    ensures
        proto::frame::parse_frame(frame@) matches Ok((h, body)) && {
            &&& h.kind == proto::FrameKind::Request
            &&& h.opcode == 0x0200_0002
            &&& h.req_id == req_id
            &&& h.seq == seq
            &&& h.body_len == 8
            &&& body.len() == 8
            &&& proto::bytes::u64_at(body, 0) == context@
        },
{
    let req = gl::MakeCurrentRequest { context };
    gl::law_make_current_request_layout(req);
    proto::frame::law_made_frames(gl_op::MAKE_CURRENT, req_id, seq, req.bytes());
}

/// The request frame of [`gl_op::GEN_BUFFER`] carries what it was asked for: a
/// request under that opcode, the given request id and sequence number, and a body
/// of nothing but the arguments, in order.
pub proof fn law_gen_buffer_request(
    context: Handle,
    req_id: u32,
    seq: u64,
    frame: Vec<u8>,
)
    requires
        call_ensures(gen_buffer_request, (context, req_id, seq), frame),
    ensures
        proto::frame::parse_frame(frame@) matches Ok((h, body)) && {
            &&& h.kind == proto::FrameKind::Request
            &&& h.opcode == 0x0200_0003
            &&& h.req_id == req_id
            &&& h.seq == seq
            &&& h.body_len == 8
            &&& body.len() == 8
            &&& proto::bytes::u64_at(body, 0) == context@
        },
{
    let req = gl::GenBufferRequest { context };
    gl::law_gen_buffer_request_layout(req);
    proto::frame::law_made_frames(gl_op::GEN_BUFFER, req_id, seq, req.bytes());
}

/// The request frame of [`gl_op::SWAP_BUFFERS`] carries what it was asked for: a
/// request under that opcode, the given request id and sequence number, and a body
/// of nothing but the arguments, in order.
pub proof fn law_swap_buffers_request(
    context: Handle,
    req_id: u32,
    seq: u64,
    frame: Vec<u8>,
)
    requires
        call_ensures(swap_buffers_request, (context, req_id, seq), frame),
    ensures
        proto::frame::parse_frame(frame@) matches Ok((h, body)) && {
            &&& h.kind == proto::FrameKind::Request
            &&& h.opcode == 0x0200_0004
            &&& h.req_id == req_id
            &&& h.seq == seq
            &&& h.body_len == 8
            &&& body.len() == 8
            &&& proto::bytes::u64_at(body, 0) == context@
        },
{
    let req = gl::SwapBuffersRequest { context };
    gl::law_swap_buffers_request_layout(req);
    proto::frame::law_made_frames(gl_op::SWAP_BUFFERS, req_id, seq, req.bytes());
}

/// The request frame of [`gl_op::DELETE_BUFFER`] carries what it was asked for: a
/// request under that opcode, the given request id and sequence number, and a body
/// of nothing but the arguments, in order.
pub proof fn law_delete_buffer_request(
    buffer: Handle,
    req_id: u32,
    seq: u64,
    frame: Vec<u8>,
)
    requires
        call_ensures(delete_buffer_request, (buffer, req_id, seq), frame),
    ensures
        proto::frame::parse_frame(frame@) matches Ok((h, body)) && {
            &&& h.kind == proto::FrameKind::Request
            &&& h.opcode == 0x0200_0005
            &&& h.req_id == req_id
            &&& h.seq == seq
            &&& h.body_len == 8
            &&& body.len() == 8
            &&& proto::bytes::u64_at(body, 0) == buffer@
        },
{
    let req = gl::DeleteBufferRequest { buffer };
    gl::law_delete_buffer_request_layout(req);
    proto::frame::law_made_frames(gl_op::DELETE_BUFFER, req_id, seq, req.bytes());
}

} // verus!
