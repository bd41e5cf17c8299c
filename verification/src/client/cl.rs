//! OpenCL client shim.
//!
//! Builds the request frames of the OpenCL entrypoints and reads the frames
//! that the server's OpenCL backend replies with. Pure Rust: no driver, no
//! GPU.
use vstd::prelude::*;

use super::ClientError;
use crate::protocol as proto;
use crate::protocol::cl;
use crate::protocol::cl_op;
use crate::protocol::wire::Wire;
use crate::protocol::Handle;

verus! {

broadcast use crate::protocol::bytes::lemma_append_to_empty;

/// Server object kind for an OpenCL context handle.
pub const KIND_CL_CONTEXT: u8 = 40;

/// Server object kind for an OpenCL memory-buffer handle.
pub const KIND_CL_MEM: u8 = 41;

/// The request frame of [`cl_op::CREATE_CONTEXT`], with which to issue a
/// context-creation call.
pub fn create_context_request(req_id: u32, seq: u64) -> (frame: Vec<u8>)
    ensures
        frame@ == proto::frame::request_bytes(
            cl_op::CREATE_CONTEXT,
            req_id,
            seq,
            seq![],
        ),
{
    let body: Vec<u8> = Vec::new();
    proto::frame::plain_frame(
        proto::FrameKind::Request,
        cl_op::CREATE_CONTEXT,
        req_id,
        seq,
        &body,
    )
}

/// What [`cl_op::CREATE_CONTEXT`] yields on receiving `reply`.
pub open spec fn create_context_result(reply: Seq<u8>) -> Result<Handle, ClientError> {
    match super::reply_body(reply, cl_op::CREATE_CONTEXT) {
        Err(e) => Err(e),
        Ok(body) => match cl::CreateContextResponse::parse(body) {
            Err(e) => Err(ClientError::Protocol(e)),
            Ok(resp) => super::handle_of_kind(resp.context, KIND_CL_CONTEXT),
        },
    }
}

/// Read the reply to [`cl_op::CREATE_CONTEXT`]: validate its opcode and kind,
/// decode the handle, and verify that it names an object of the right kind.
pub fn create_context_reply(reply: &[u8]) -> (r: Result<Handle, ClientError>)
    ensures
        r == create_context_result(reply@),
{
    let body: &[u8] = super::accept_reply(reply, cl_op::CREATE_CONTEXT)?;
    match cl::CreateContextResponse::decode(body) {
        Err(e) => Err(ClientError::Protocol(e)),
        Ok(resp) => super::check_kind(resp.context, KIND_CL_CONTEXT),
    }
}

/// The request for [`cl_op::CREATE_CONTEXT`] reaches a server as it was made,
/// and what the server answers is what the caller gets.
pub proof fn law_create_context_exchange(
    answer: Handle,
    req_id: u32,
    seq: u64,
    reply_seq: u64,
)
    requires
        answer.spec_kind() == KIND_CL_CONTEXT,
    ensures
        crate::server::session::screen(
            proto::frame::request_bytes(
                cl_op::CREATE_CONTEXT,
                req_id,
                seq,
                seq![],
            ),
            proto::DEFAULT_MAX_FRAME_BODY,
        ) matches Ok((h, body)) && h.opcode == cl_op::CREATE_CONTEXT && h.req_id == req_id
            && body.len() == 0,
        create_context_result(
            proto::frame::reply_bytes(
                cl_op::CREATE_CONTEXT,
                req_id,
                reply_seq,
                (cl::CreateContextResponse { context: answer }).bytes(),
            ),
        ) == Ok::<Handle, ClientError>(answer),
{
    broadcast use crate::protocol::bytes::group_le_len;

    super::law_request_passes(
        cl_op::CREATE_CONTEXT,
        req_id,
        seq,
        seq![],
        proto::DEFAULT_MAX_FRAME_BODY,
    );
    let resp = cl::CreateContextResponse { context: answer };
    super::law_reply_accepted(cl_op::CREATE_CONTEXT, req_id, reply_seq, resp.bytes());
    resp.law_whole();
}

/// The request frame of [`cl_op::CREATE_BUFFER`], with which to issue a
/// buffer-creation call of `size` bytes in `context`.
pub fn create_buffer_request(
    context: Handle,
    size: u64,
    req_id: u32,
    seq: u64,
) -> (frame: Vec<u8>)
    ensures
        frame@ == proto::frame::request_bytes(
            cl_op::CREATE_BUFFER,
            req_id,
            seq,
            (cl::CreateBufferRequest { context, size }).bytes(),
        ),
{
    let mut body: Vec<u8> = Vec::new();
    (cl::CreateBufferRequest { context, size }).encode(&mut body);
    proto::frame::plain_frame(proto::FrameKind::Request, cl_op::CREATE_BUFFER, req_id, seq, &body)
}

/// What [`cl_op::CREATE_BUFFER`] yields on receiving `reply`.
pub open spec fn create_buffer_result(reply: Seq<u8>) -> Result<Handle, ClientError> {
    match super::reply_body(reply, cl_op::CREATE_BUFFER) {
        Err(e) => Err(e),
        Ok(body) => match cl::CreateBufferResponse::parse(body) {
            Err(e) => Err(ClientError::Protocol(e)),
            Ok(resp) => super::handle_of_kind(resp.mem, KIND_CL_MEM),
        },
    }
}

/// Read the reply to [`cl_op::CREATE_BUFFER`]: validate its opcode and kind,
/// decode the handle, and verify that it names an object of the right kind.
pub fn create_buffer_reply(reply: &[u8]) -> (r: Result<Handle, ClientError>)
    ensures
        r == create_buffer_result(reply@),
{
    let body: &[u8] = super::accept_reply(reply, cl_op::CREATE_BUFFER)?;
    match cl::CreateBufferResponse::decode(body) {
        Err(e) => Err(ClientError::Protocol(e)),
        Ok(resp) => super::check_kind(resp.mem, KIND_CL_MEM),
    }
}

/// The request for [`cl_op::CREATE_BUFFER`] reaches a server as it was made,
/// and what the server answers is what the caller gets.
pub proof fn law_create_buffer_exchange(
    context: Handle,
    size: u64,
    answer: Handle,
    req_id: u32,
    seq: u64,
    reply_seq: u64,
)
    requires
        answer.spec_kind() == KIND_CL_MEM,
    ensures
        crate::server::session::screen(
            proto::frame::request_bytes(
                cl_op::CREATE_BUFFER,
                req_id,
                seq,
                (cl::CreateBufferRequest { context, size }).bytes(),
            ),
            proto::DEFAULT_MAX_FRAME_BODY,
        ) matches Ok((h, body)) && h.opcode == cl_op::CREATE_BUFFER && h.req_id == req_id
            && cl::CreateBufferRequest::parse(body) == Ok::<
            cl::CreateBufferRequest,
            proto::ProtocolError,
        >(
            cl::CreateBufferRequest { context, size },
        ),
        create_buffer_result(
            proto::frame::reply_bytes(
                cl_op::CREATE_BUFFER,
                req_id,
                reply_seq,
                (cl::CreateBufferResponse { mem: answer }).bytes(),
            ),
        ) == Ok::<Handle, ClientError>(answer),
{
    broadcast use crate::protocol::bytes::group_le_len;

    let req = cl::CreateBufferRequest { context, size };
    super::law_request_passes(
        cl_op::CREATE_BUFFER,
        req_id,
        seq,
        req.bytes(),
        proto::DEFAULT_MAX_FRAME_BODY,
    );
    req.law_whole();
    let resp = cl::CreateBufferResponse { mem: answer };
    super::law_reply_accepted(cl_op::CREATE_BUFFER, req_id, reply_seq, resp.bytes());
    resp.law_whole();
}

/// The request frame of [`cl_op::RELEASE_BUFFER`], with which to issue a
/// buffer-release call for `mem`.
pub fn release_buffer_request(mem: Handle, req_id: u32, seq: u64) -> (frame: Vec<u8>)
    ensures
        frame@ == proto::frame::request_bytes(
            cl_op::RELEASE_BUFFER,
            req_id,
            seq,
            (cl::ReleaseBufferRequest { mem }).bytes(),
        ),
{
    let mut body: Vec<u8> = Vec::new();
    (cl::ReleaseBufferRequest { mem }).encode(&mut body);
    proto::frame::plain_frame(
        proto::FrameKind::Request,
        cl_op::RELEASE_BUFFER,
        req_id,
        seq,
        &body,
    )
}

/// What [`cl_op::RELEASE_BUFFER`] yields on receiving `reply`.
pub open spec fn release_buffer_result(reply: Seq<u8>) -> Result<(), ClientError> {
    match super::reply_body(reply, cl_op::RELEASE_BUFFER) {
        Err(e) => Err(e),
        Ok(_) => Ok(()),
    }
}

/// Read the reply to [`cl_op::RELEASE_BUFFER`]: validate its opcode and kind.
/// The reply body is an empty acknowledgement, so nothing is decoded.
pub fn release_buffer_reply(reply: &[u8]) -> (r: Result<(), ClientError>)
    ensures
        r == release_buffer_result(reply@),
{
    let _body: &[u8] = super::accept_reply(reply, cl_op::RELEASE_BUFFER)?;
    Ok(())
}

/// The request for [`cl_op::RELEASE_BUFFER`] reaches a server as it was made,
/// and what the server answers is what the caller gets.
pub proof fn law_release_buffer_exchange(mem: Handle, req_id: u32, seq: u64, reply_seq: u64)
    ensures
        crate::server::session::screen(
            proto::frame::request_bytes(
                cl_op::RELEASE_BUFFER,
                req_id,
                seq,
                (cl::ReleaseBufferRequest { mem }).bytes(),
            ),
            proto::DEFAULT_MAX_FRAME_BODY,
        ) matches Ok((h, body)) && h.opcode == cl_op::RELEASE_BUFFER && h.req_id == req_id
            && cl::ReleaseBufferRequest::parse(body) == Ok::<
            cl::ReleaseBufferRequest,
            proto::ProtocolError,
        >(
            cl::ReleaseBufferRequest { mem },
        ),
        release_buffer_result(
            proto::frame::reply_bytes(
                cl_op::RELEASE_BUFFER,
                req_id,
                reply_seq,
                seq![],
            ),
        ) == Ok::<(), ClientError>(()),
{
    broadcast use crate::protocol::bytes::group_le_len;

    let req = cl::ReleaseBufferRequest { mem };
    super::law_request_passes(
        cl_op::RELEASE_BUFFER,
        req_id,
        seq,
        req.bytes(),
        proto::DEFAULT_MAX_FRAME_BODY,
    );
    req.law_whole();
    super::law_reply_accepted(cl_op::RELEASE_BUFFER, req_id, reply_seq, seq![]);
}

/// The reply to [`cl_op::CREATE_CONTEXT`] is read by its opcode, its kind and its
/// body alone. A response under that opcode yields the handle it carries if that is
/// of the right kind, and is refused by the kind if not; where the body is too
/// short for a handle it is refused as an unexpected end. Any other frame is
/// refused as unexpected, and what is no frame for the reason that it is none.
pub proof fn law_create_context_reply(
    h: proto::FrameHeader,
    answer: Handle,
    rest: Seq<u8>,
    body: Seq<u8>,
    garbled: Seq<u8>,
)
    ensures
        h.opcode == cl_op::CREATE_CONTEXT && h.kind == proto::FrameKind::Response ==> {
            &&& create_context_result(
                proto::frame::frame_bytes(
                    h,
                    (cl::CreateContextResponse { context: answer }).bytes() + rest,
                ),
            ) == if answer.spec_kind() == KIND_CL_CONTEXT {
                Ok::<Handle, ClientError>(answer)
            } else {
                Err::<Handle, ClientError>(
                    ClientError::Protocol(
                        proto::ProtocolError::BadKind(answer.spec_kind() as u16),
                    ),
                )
            }
            &&& body.len() < 8
                ==> create_context_result(proto::frame::frame_bytes(h, body)) == Err::<
                Handle,
                ClientError,
            >(ClientError::Protocol(proto::ProtocolError::UnexpectedEof))
        },
        h.opcode != cl_op::CREATE_CONTEXT || h.kind != proto::FrameKind::Response
            ==> create_context_result(
            proto::frame::frame_bytes(h, body),
        ) == Err::<Handle, ClientError>(
            ClientError::UnexpectedReply { opcode: h.opcode, kind: h.kind },
        ),
        proto::frame::parse_frame(garbled) matches Err(e)
            ==> create_context_result(garbled) == Err::<
            Handle,
            ClientError,
        >(ClientError::Protocol(e)),
{
    let resp = cl::CreateContextResponse { context: answer };
    resp.law_round_trip(rest);
    proto::frame::law_frame_round_trip(h, resp.bytes() + rest);
    proto::frame::law_frame_round_trip(h, body);
}

/// The reply to [`cl_op::CREATE_BUFFER`] is read by its opcode, its kind and its
/// body alone. A response under that opcode yields the handle it carries if that is
/// of the right kind, and is refused by the kind if not; where the body is too
/// short for a handle it is refused as an unexpected end. Any other frame is
/// refused as unexpected, and what is no frame for the reason that it is none.
pub proof fn law_create_buffer_reply(
    h: proto::FrameHeader,
    answer: Handle,
    rest: Seq<u8>,
    body: Seq<u8>,
    garbled: Seq<u8>,
)
    ensures
        h.opcode == cl_op::CREATE_BUFFER && h.kind == proto::FrameKind::Response ==> {
            &&& create_buffer_result(
                proto::frame::frame_bytes(
                    h,
                    (cl::CreateBufferResponse { mem: answer }).bytes() + rest,
                ),
            ) == if answer.spec_kind() == KIND_CL_MEM {
                Ok::<Handle, ClientError>(answer)
            } else {
                Err::<Handle, ClientError>(
                    ClientError::Protocol(
                        proto::ProtocolError::BadKind(answer.spec_kind() as u16),
                    ),
                )
            }
            &&& body.len() < 8
                ==> create_buffer_result(proto::frame::frame_bytes(h, body)) == Err::<
                Handle,
                ClientError,
            >(ClientError::Protocol(proto::ProtocolError::UnexpectedEof))
        },
        h.opcode != cl_op::CREATE_BUFFER || h.kind != proto::FrameKind::Response
            ==> create_buffer_result(
            proto::frame::frame_bytes(h, body),
        ) == Err::<Handle, ClientError>(
            ClientError::UnexpectedReply { opcode: h.opcode, kind: h.kind },
        ),
        proto::frame::parse_frame(garbled) matches Err(e)
            ==> create_buffer_result(garbled) == Err::<
            Handle,
            ClientError,
        >(ClientError::Protocol(e)),
{
    let resp = cl::CreateBufferResponse { mem: answer };
    resp.law_round_trip(rest);
    proto::frame::law_frame_round_trip(h, resp.bytes() + rest);
    proto::frame::law_frame_round_trip(h, body);
}

/// The reply to [`cl_op::RELEASE_BUFFER`] is read by its opcode and its kind alone:
/// a response under that opcode is an acknowledgement. Any other frame is refused
/// as unexpected, and what is no frame for the reason that it is none.
pub proof fn law_release_buffer_reply(
    h: proto::FrameHeader,
    body: Seq<u8>,
    garbled: Seq<u8>,
)
    ensures
        h.opcode == cl_op::RELEASE_BUFFER && h.kind == proto::FrameKind::Response ==> {
            release_buffer_result(proto::frame::frame_bytes(h, body)) == Ok::<(), ClientError>(())
        },
        h.opcode != cl_op::RELEASE_BUFFER || h.kind != proto::FrameKind::Response
            ==> release_buffer_result(
            proto::frame::frame_bytes(h, body),
        ) == Err::<(), ClientError>(
            ClientError::UnexpectedReply { opcode: h.opcode, kind: h.kind },
        ),
        proto::frame::parse_frame(garbled) matches Err(e)
            ==> release_buffer_result(garbled) == Err::<
            (),
            ClientError,
        >(ClientError::Protocol(e)),
{
    proto::frame::law_frame_round_trip(h, body);
}

/// The request frame of [`cl_op::CREATE_CONTEXT`] carries what it was asked for: a
/// request under that opcode, the given request id and sequence number, and a body
/// of nothing.
pub proof fn law_create_context_request(
    req_id: u32,
    seq: u64,
    frame: Vec<u8>,
)
    requires
        call_ensures(create_context_request, (req_id, seq), frame),
    ensures
        proto::frame::parse_frame(frame@) matches Ok((h, body)) && {
            &&& h.kind == proto::FrameKind::Request
            &&& h.opcode == 0x0400_0001
            &&& h.req_id == req_id
            &&& h.seq == seq
            &&& h.body_len == 0
            &&& body.len() == 0
        },
{
    proto::frame::law_made_frames(cl_op::CREATE_CONTEXT, req_id, seq, seq![]);
}

/// The request frame of [`cl_op::CREATE_BUFFER`] carries what it was asked for: a
/// request under that opcode, the given request id and sequence number, and a body
/// of nothing but the arguments, in order.
pub proof fn law_create_buffer_request(
    context: Handle,
    size: u64,
    req_id: u32,
    seq: u64,
    frame: Vec<u8>,
)
    requires
        call_ensures(create_buffer_request, (context, size, req_id, seq), frame),
    ensures
        proto::frame::parse_frame(frame@) matches Ok((h, body)) && {
            &&& h.kind == proto::FrameKind::Request
            &&& h.opcode == 0x0400_0002
            &&& h.req_id == req_id
            &&& h.seq == seq
            &&& h.body_len == 16
            &&& body.len() == 16
            &&& proto::bytes::u64_at(body, 0) == context@
            &&& proto::bytes::u64_at(body, 8) == size
        },
{
    let req = cl::CreateBufferRequest { context, size };
    cl::law_create_buffer_request_layout(req);
    proto::frame::law_made_frames(cl_op::CREATE_BUFFER, req_id, seq, req.bytes());
}

/// The request frame of [`cl_op::RELEASE_BUFFER`] carries what it was asked for: a
/// request under that opcode, the given request id and sequence number, and a body
/// of nothing but the arguments, in order.
pub proof fn law_release_buffer_request(
    mem: Handle,
    req_id: u32,
    seq: u64,
    frame: Vec<u8>,
)
    requires
        call_ensures(release_buffer_request, (mem, req_id, seq), frame),
    ensures
        proto::frame::parse_frame(frame@) matches Ok((h, body)) && {
            &&& h.kind == proto::FrameKind::Request
            &&& h.opcode == 0x0400_0003
            &&& h.req_id == req_id
            &&& h.seq == seq
            &&& h.body_len == 8
            &&& body.len() == 8
            &&& proto::bytes::u64_at(body, 0) == mem@
        },
{
    let req = cl::ReleaseBufferRequest { mem };
    cl::law_release_buffer_request_layout(req);
    proto::frame::law_made_frames(cl_op::RELEASE_BUFFER, req_id, seq, req.bytes());
}

} // verus!
