//! OptiX client shim.
//!
//! Builds the request frames of the OptiX entrypoints and reads the frames
//! that the server's OptiX backend replies with. Pure Rust: no driver, no GPU.
use vstd::prelude::*;

use super::ClientError;
use crate::protocol as proto;
use crate::protocol::optix;
use crate::protocol::optix_op;
use crate::protocol::wire::Wire;
use crate::protocol::Handle;

verus! {

broadcast use crate::protocol::bytes::lemma_append_to_empty;

/// Server object kind for an OptiX device-context handle.
pub const KIND_OPTIX_CONTEXT: u8 = 80;

/// Server object kind for an OptiX ray-tracing pipeline handle.
pub const KIND_OPTIX_PIPELINE: u8 = 81;

/// The request frame of [`optix_op::CONTEXT_CREATE`], with which to create an
/// OptiX device context.
pub fn context_create_request(req_id: u32, seq: u64) -> (frame: Vec<u8>)
    ensures
        frame@ == proto::frame::request_bytes(
            optix_op::CONTEXT_CREATE,
            req_id,
            seq,
            seq![],
        ),
{
    let body: Vec<u8> = Vec::new();
    proto::frame::plain_frame(
        proto::FrameKind::Request,
        optix_op::CONTEXT_CREATE,
        req_id,
        seq,
        &body,
    )
}

/// What [`optix_op::CONTEXT_CREATE`] yields on receiving `reply`.
pub open spec fn context_create_result(reply: Seq<u8>) -> Result<Handle, ClientError> {
    match super::reply_body(reply, optix_op::CONTEXT_CREATE) {
        Err(e) => Err(e),
        Ok(body) => match optix::ContextCreateResponse::parse(body) {
            Err(e) => Err(ClientError::Protocol(e)),
            Ok(resp) => super::handle_of_kind(resp.context, KIND_OPTIX_CONTEXT),
        },
    }
}

/// Read the reply to [`optix_op::CONTEXT_CREATE`]: validate its opcode and
/// kind, decode the handle, and verify that it names an object of the right
/// kind.
pub fn context_create_reply(reply: &[u8]) -> (r: Result<Handle, ClientError>)
    ensures
        r == context_create_result(reply@),
{
    let body: &[u8] = super::accept_reply(reply, optix_op::CONTEXT_CREATE)?;
    match optix::ContextCreateResponse::decode(body) {
        Err(e) => Err(ClientError::Protocol(e)),
        Ok(resp) => super::check_kind(resp.context, KIND_OPTIX_CONTEXT),
    }
}

/// The request for [`optix_op::CONTEXT_CREATE`] reaches a server as it was
/// made, and what the server answers is what the caller gets.
pub proof fn law_context_create_exchange(
    answer: Handle,
    req_id: u32,
    seq: u64,
    reply_seq: u64,
)
    requires
        answer.spec_kind() == KIND_OPTIX_CONTEXT,
    ensures
        crate::server::session::screen(
            proto::frame::request_bytes(
                optix_op::CONTEXT_CREATE,
                req_id,
                seq,
                seq![],
            ),
            proto::DEFAULT_MAX_FRAME_BODY,
        ) matches Ok((h, body)) && h.opcode == optix_op::CONTEXT_CREATE && h.req_id == req_id
            && body.len() == 0,
        context_create_result(
            proto::frame::reply_bytes(
                optix_op::CONTEXT_CREATE,
                req_id,
                reply_seq,
                (optix::ContextCreateResponse { context: answer }).bytes(),
            ),
        ) == Ok::<Handle, ClientError>(answer),
{
    broadcast use crate::protocol::bytes::group_le_len;

    super::law_request_passes(
        optix_op::CONTEXT_CREATE,
        req_id,
        seq,
        seq![],
        proto::DEFAULT_MAX_FRAME_BODY,
    );
    let resp = optix::ContextCreateResponse { context: answer };
    super::law_reply_accepted(optix_op::CONTEXT_CREATE, req_id, reply_seq, resp.bytes());
    resp.law_whole();
}

/// The request frame of [`optix_op::PIPELINE_CREATE`], with which to create a
/// ray-tracing pipeline in `context`.
pub fn pipeline_create_request(context: Handle, req_id: u32, seq: u64) -> (frame: Vec<u8>)
    ensures
        frame@ == proto::frame::request_bytes(
            optix_op::PIPELINE_CREATE,
            req_id,
            seq,
            (optix::PipelineCreateRequest { context }).bytes(),
        ),
{
    let mut body: Vec<u8> = Vec::new();
    (optix::PipelineCreateRequest { context }).encode(&mut body);
    proto::frame::plain_frame(
        proto::FrameKind::Request,
        optix_op::PIPELINE_CREATE,
        req_id,
        seq,
        &body,
    )
}

/// What [`optix_op::PIPELINE_CREATE`] yields on receiving `reply`.
pub open spec fn pipeline_create_result(reply: Seq<u8>) -> Result<Handle, ClientError> {
    match super::reply_body(reply, optix_op::PIPELINE_CREATE) {
        Err(e) => Err(e),
        Ok(body) => match optix::PipelineCreateResponse::parse(body) {
            Err(e) => Err(ClientError::Protocol(e)),
            Ok(resp) => super::handle_of_kind(resp.pipeline, KIND_OPTIX_PIPELINE),
        },
    }
}

/// Read the reply to [`optix_op::PIPELINE_CREATE`]: validate its opcode and
/// kind, decode the handle, and verify that it names an object of the right
/// kind.
pub fn pipeline_create_reply(reply: &[u8]) -> (r: Result<Handle, ClientError>)
    ensures
        r == pipeline_create_result(reply@),
{
    let body: &[u8] = super::accept_reply(reply, optix_op::PIPELINE_CREATE)?;
    match optix::PipelineCreateResponse::decode(body) {
        Err(e) => Err(ClientError::Protocol(e)),
        Ok(resp) => super::check_kind(resp.pipeline, KIND_OPTIX_PIPELINE),
    }
}

/// The request for [`optix_op::PIPELINE_CREATE`] reaches a server as it was
/// made, and what the server answers is what the caller gets.
pub proof fn law_pipeline_create_exchange(
    context: Handle,
    answer: Handle,
    req_id: u32,
    seq: u64,
    reply_seq: u64,
)
    requires
        answer.spec_kind() == KIND_OPTIX_PIPELINE,
    ensures
        crate::server::session::screen(
            proto::frame::request_bytes(
                optix_op::PIPELINE_CREATE,
                req_id,
                seq,
                (optix::PipelineCreateRequest { context }).bytes(),
            ),
            proto::DEFAULT_MAX_FRAME_BODY,
        ) matches Ok((h, body)) && h.opcode == optix_op::PIPELINE_CREATE && h.req_id == req_id
            && optix::PipelineCreateRequest::parse(body) == Ok::<
            optix::PipelineCreateRequest,
            proto::ProtocolError,
        >(
            optix::PipelineCreateRequest { context },
        ),
        pipeline_create_result(
            proto::frame::reply_bytes(
                optix_op::PIPELINE_CREATE,
                req_id,
                reply_seq,
                (optix::PipelineCreateResponse { pipeline: answer }).bytes(),
            ),
        ) == Ok::<Handle, ClientError>(answer),
{
    broadcast use crate::protocol::bytes::group_le_len;

    let req = optix::PipelineCreateRequest { context };
    super::law_request_passes(
        optix_op::PIPELINE_CREATE,
        req_id,
        seq,
        req.bytes(),
        proto::DEFAULT_MAX_FRAME_BODY,
    );
    req.law_whole();
    let resp = optix::PipelineCreateResponse { pipeline: answer };
    super::law_reply_accepted(optix_op::PIPELINE_CREATE, req_id, reply_seq, resp.bytes());
    resp.law_whole();
}

/// The request frame of [`optix_op::DESTROY`], with which to destroy the OptiX
/// context or pipeline named by `handle`.
pub fn destroy_request(handle: Handle, req_id: u32, seq: u64) -> (frame: Vec<u8>)
    ensures
        frame@ == proto::frame::request_bytes(
            optix_op::DESTROY,
            req_id,
            seq,
            (optix::DestroyRequest { handle }).bytes(),
        ),
{
    let mut body: Vec<u8> = Vec::new();
    (optix::DestroyRequest { handle }).encode(&mut body);
    proto::frame::plain_frame(proto::FrameKind::Request, optix_op::DESTROY, req_id, seq, &body)
}

/// What [`optix_op::DESTROY`] yields on receiving `reply`.
pub open spec fn destroy_result(reply: Seq<u8>) -> Result<(), ClientError> {
    match super::reply_body(reply, optix_op::DESTROY) {
        Err(e) => Err(e),
        Ok(_) => Ok(()),
    }
}

/// Read the reply to [`optix_op::DESTROY`]: validate its opcode and kind. The
/// reply body is an empty acknowledgement, so nothing is decoded.
pub fn destroy_reply(reply: &[u8]) -> (r: Result<(), ClientError>)
    ensures
        r == destroy_result(reply@),
{
    let _body: &[u8] = super::accept_reply(reply, optix_op::DESTROY)?;
    Ok(())
}

/// The request for [`optix_op::DESTROY`] reaches a server as it was made, and
/// what the server answers is what the caller gets.
pub proof fn law_destroy_exchange(handle: Handle, req_id: u32, seq: u64, reply_seq: u64)
    ensures
        crate::server::session::screen(
            proto::frame::request_bytes(
                optix_op::DESTROY,
                req_id,
                seq,
                (optix::DestroyRequest { handle }).bytes(),
            ),
            proto::DEFAULT_MAX_FRAME_BODY,
        ) matches Ok((h, body)) && h.opcode == optix_op::DESTROY && h.req_id == req_id
            && optix::DestroyRequest::parse(body) == Ok::<
            optix::DestroyRequest,
            proto::ProtocolError,
        >(
            optix::DestroyRequest { handle },
        ),
        destroy_result(
            proto::frame::reply_bytes(
                optix_op::DESTROY,
                req_id,
                reply_seq,
                seq![],
            ),
        ) == Ok::<(), ClientError>(()),
{
    broadcast use crate::protocol::bytes::group_le_len;

    let req = optix::DestroyRequest { handle };
    super::law_request_passes(
        optix_op::DESTROY,
        req_id,
        seq,
        req.bytes(),
        proto::DEFAULT_MAX_FRAME_BODY,
    );
    req.law_whole();
    super::law_reply_accepted(optix_op::DESTROY, req_id, reply_seq, seq![]);
}

/// The reply to [`optix_op::CONTEXT_CREATE`] is read by its opcode, its kind and
/// its body alone. A response under that opcode yields the handle it carries if
/// that is of the right kind, and is refused by the kind if not; where the body is
/// too short for a handle it is refused as an unexpected end. Any other frame is
/// refused as unexpected, and what is no frame for the reason that it is none.
pub proof fn law_context_create_reply(
    h: proto::FrameHeader,
    answer: Handle,
    rest: Seq<u8>,
    body: Seq<u8>,
    garbled: Seq<u8>,
)
    ensures
        h.opcode == optix_op::CONTEXT_CREATE && h.kind == proto::FrameKind::Response ==> {
            &&& context_create_result(
                proto::frame::frame_bytes(
                    h,
                    (optix::ContextCreateResponse { context: answer }).bytes() + rest,
                ),
            ) == if answer.spec_kind() == KIND_OPTIX_CONTEXT {
                Ok::<Handle, ClientError>(answer)
            } else {
                Err::<Handle, ClientError>(
                    ClientError::Protocol(
                        proto::ProtocolError::BadKind(answer.spec_kind() as u16),
                    ),
                )
            }
            &&& body.len() < 8
                ==> context_create_result(proto::frame::frame_bytes(h, body)) == Err::<
                Handle,
                ClientError,
            >(ClientError::Protocol(proto::ProtocolError::UnexpectedEof))
        },
        h.opcode != optix_op::CONTEXT_CREATE || h.kind != proto::FrameKind::Response
            ==> context_create_result(
            proto::frame::frame_bytes(h, body),
        ) == Err::<Handle, ClientError>(
            ClientError::UnexpectedReply { opcode: h.opcode, kind: h.kind },
        ),
        proto::frame::parse_frame(garbled) matches Err(e)
            ==> context_create_result(garbled) == Err::<
            Handle,
            ClientError,
        >(ClientError::Protocol(e)),
{
    let resp = optix::ContextCreateResponse { context: answer };
    resp.law_round_trip(rest);
    proto::frame::law_frame_round_trip(h, resp.bytes() + rest);
    proto::frame::law_frame_round_trip(h, body);
}

/// The reply to [`optix_op::PIPELINE_CREATE`] is read by its opcode, its kind and
/// its body alone. A response under that opcode yields the handle it carries if
/// that is of the right kind, and is refused by the kind if not; where the body is
/// too short for a handle it is refused as an unexpected end. Any other frame is
/// refused as unexpected, and what is no frame for the reason that it is none.
pub proof fn law_pipeline_create_reply(
    h: proto::FrameHeader,
    answer: Handle,
    rest: Seq<u8>,
    body: Seq<u8>,
    garbled: Seq<u8>,
)
    ensures
        h.opcode == optix_op::PIPELINE_CREATE && h.kind == proto::FrameKind::Response ==> {
            &&& pipeline_create_result(
                proto::frame::frame_bytes(
                    h,
                    (optix::PipelineCreateResponse { pipeline: answer }).bytes() + rest,
                ),
            ) == if answer.spec_kind() == KIND_OPTIX_PIPELINE {
                Ok::<Handle, ClientError>(answer)
            } else {
                Err::<Handle, ClientError>(
                    ClientError::Protocol(
                        proto::ProtocolError::BadKind(answer.spec_kind() as u16),
                    ),
                )
            }
            &&& body.len() < 8
                ==> pipeline_create_result(proto::frame::frame_bytes(h, body)) == Err::<
                Handle,
                ClientError,
            >(ClientError::Protocol(proto::ProtocolError::UnexpectedEof))
        },
        h.opcode != optix_op::PIPELINE_CREATE || h.kind != proto::FrameKind::Response
            ==> pipeline_create_result(
            proto::frame::frame_bytes(h, body),
        ) == Err::<Handle, ClientError>(
            ClientError::UnexpectedReply { opcode: h.opcode, kind: h.kind },
        ),
        proto::frame::parse_frame(garbled) matches Err(e)
            ==> pipeline_create_result(garbled) == Err::<
            Handle,
            ClientError,
        >(ClientError::Protocol(e)),
{
    let resp = optix::PipelineCreateResponse { pipeline: answer };
    resp.law_round_trip(rest);
    proto::frame::law_frame_round_trip(h, resp.bytes() + rest);
    proto::frame::law_frame_round_trip(h, body);
}

/// The reply to [`optix_op::DESTROY`] is read by its opcode and its kind alone: a
/// response under that opcode is an acknowledgement. Any other frame is refused as
/// unexpected, and what is no frame for the reason that it is none.
pub proof fn law_destroy_reply(
    h: proto::FrameHeader,
    body: Seq<u8>,
    garbled: Seq<u8>,
)
    ensures
        h.opcode == optix_op::DESTROY && h.kind == proto::FrameKind::Response ==> {
            destroy_result(proto::frame::frame_bytes(h, body)) == Ok::<(), ClientError>(())
        },
        h.opcode != optix_op::DESTROY || h.kind != proto::FrameKind::Response ==> destroy_result(
            proto::frame::frame_bytes(h, body),
        ) == Err::<(), ClientError>(
            ClientError::UnexpectedReply { opcode: h.opcode, kind: h.kind },
        ),
        proto::frame::parse_frame(garbled) matches Err(e) ==> destroy_result(garbled) == Err::<
            (),
            ClientError,
        >(ClientError::Protocol(e)),
{
    proto::frame::law_frame_round_trip(h, body);
}

/// The request frame of [`optix_op::CONTEXT_CREATE`] carries what it was asked for:
/// a request under that opcode, the given request id and sequence number, and a
/// body of nothing.
pub proof fn law_context_create_request(
    req_id: u32,
    seq: u64,
    frame: Vec<u8>,
)
    requires
        call_ensures(context_create_request, (req_id, seq), frame),
    ensures
        proto::frame::parse_frame(frame@) matches Ok((h, body)) && {
            &&& h.kind == proto::FrameKind::Request
            &&& h.opcode == 0x0900_0001
            &&& h.req_id == req_id
            &&& h.seq == seq
            &&& h.body_len == 0
            &&& body.len() == 0
        },
{
    proto::frame::law_made_frames(optix_op::CONTEXT_CREATE, req_id, seq, seq![]);
}

/// The request frame of [`optix_op::PIPELINE_CREATE`] carries what it was asked
/// for: a request under that opcode, the given request id and sequence number, and
/// a body of nothing but the arguments, in order.
pub proof fn law_pipeline_create_request(
    context: Handle,
    req_id: u32,
    seq: u64,
    frame: Vec<u8>,
)
    requires
        call_ensures(pipeline_create_request, (context, req_id, seq), frame),
    ensures
        proto::frame::parse_frame(frame@) matches Ok((h, body)) && {
            &&& h.kind == proto::FrameKind::Request
            &&& h.opcode == 0x0900_0002
            &&& h.req_id == req_id
            &&& h.seq == seq
            &&& h.body_len == 8
            &&& body.len() == 8
            &&& proto::bytes::u64_at(body, 0) == context@
        },
{
    let req = optix::PipelineCreateRequest { context };
    optix::law_pipeline_create_request_layout(req);
    proto::frame::law_made_frames(optix_op::PIPELINE_CREATE, req_id, seq, req.bytes());
}

/// The request frame of [`optix_op::DESTROY`] carries what it was asked for: a
/// request under that opcode, the given request id and sequence number, and a body
/// of nothing but the arguments, in order.
pub proof fn law_destroy_request(
    handle: Handle,
    req_id: u32,
    seq: u64,
    frame: Vec<u8>,
)
    requires
        call_ensures(destroy_request, (handle, req_id, seq), frame),
    ensures
        proto::frame::parse_frame(frame@) matches Ok((h, body)) && {
            &&& h.kind == proto::FrameKind::Request
            &&& h.opcode == 0x0900_0003
            &&& h.req_id == req_id
            &&& h.seq == seq
            &&& h.body_len == 8
            &&& body.len() == 8
            &&& proto::bytes::u64_at(body, 0) == handle@
        },
{
    let req = optix::DestroyRequest { handle };
    optix::law_destroy_request_layout(req);
    proto::frame::law_made_frames(optix_op::DESTROY, req_id, seq, req.bytes());
}

} // verus!
