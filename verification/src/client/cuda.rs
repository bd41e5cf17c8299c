//! CUDA client shim.
//!
//! Builds the request frames of the CUDA entrypoints and reads the frames that
//! the server's CUDA backend replies with. Pure Rust: no driver, no GPU.
use vstd::prelude::*;

use super::ClientError;
use crate::protocol as proto;
use crate::protocol::cuda;
use crate::protocol::cuda_op;
use crate::protocol::wire::Wire;
use crate::protocol::Handle;

verus! {

broadcast use crate::protocol::bytes::lemma_append_to_empty;

/// Server object kind for a CUDA context handle.
pub const KIND_CUDA_CONTEXT: u8 = 20;

/// Server object kind for a CUDA device-pointer handle.
pub const KIND_CUDA_DEVICE_PTR: u8 = 21;

/// The request frame of [`cuda_op::CTX_CREATE`], with which to issue a
/// context-creation call for `device_ordinal`.
pub fn ctx_create_request(device_ordinal: u32, req_id: u32, seq: u64) -> (frame: Vec<u8>)
    ensures
        frame@ == proto::frame::request_bytes(
            cuda_op::CTX_CREATE,
            req_id,
            seq,
            (cuda::CtxCreateRequest { device_ordinal }).bytes(),
        ),
{
    let mut body: Vec<u8> = Vec::new();
    (cuda::CtxCreateRequest { device_ordinal }).encode(&mut body);
    proto::frame::plain_frame(proto::FrameKind::Request, cuda_op::CTX_CREATE, req_id, seq, &body)
}

/// What [`cuda_op::CTX_CREATE`] yields on receiving `reply`.
pub open spec fn ctx_create_result(reply: Seq<u8>) -> Result<Handle, ClientError> {
    match super::reply_body(reply, cuda_op::CTX_CREATE) {
        Err(e) => Err(e),
        Ok(body) => match cuda::CtxCreateResponse::parse(body) {
            Err(e) => Err(ClientError::Protocol(e)),
            Ok(resp) => super::handle_of_kind(resp.context, KIND_CUDA_CONTEXT),
        },
    }
}

/// Read the reply to [`cuda_op::CTX_CREATE`]: validate its opcode and kind,
/// decode the handle, and verify that it names an object of the right kind.
pub fn ctx_create_reply(reply: &[u8]) -> (r: Result<Handle, ClientError>)
    ensures
        r == ctx_create_result(reply@),
{
    let body: &[u8] = super::accept_reply(reply, cuda_op::CTX_CREATE)?;
    match cuda::CtxCreateResponse::decode(body) {
        Err(e) => Err(ClientError::Protocol(e)),
        Ok(resp) => super::check_kind(resp.context, KIND_CUDA_CONTEXT),
    }
}

/// The request for [`cuda_op::CTX_CREATE`] reaches a server as it was made,
/// and what the server answers is what the caller gets.
pub proof fn law_ctx_create_exchange(
    device_ordinal: u32,
    answer: Handle,
    req_id: u32,
    seq: u64,
    reply_seq: u64,
)
    requires
        answer.spec_kind() == KIND_CUDA_CONTEXT,
    ensures
        crate::server::session::screen(
            proto::frame::request_bytes(
                cuda_op::CTX_CREATE,
                req_id,
                seq,
                (cuda::CtxCreateRequest { device_ordinal }).bytes(),
            ),
            proto::DEFAULT_MAX_FRAME_BODY,
        ) matches Ok((h, body)) && h.opcode == cuda_op::CTX_CREATE && h.req_id == req_id
            && cuda::CtxCreateRequest::parse(body) == Ok::<
            cuda::CtxCreateRequest,
            proto::ProtocolError,
        >(
            cuda::CtxCreateRequest { device_ordinal },
        ),
        ctx_create_result(
            proto::frame::reply_bytes(
                cuda_op::CTX_CREATE,
                req_id,
                reply_seq,
                (cuda::CtxCreateResponse { context: answer }).bytes(),
            ),
        ) == Ok::<Handle, ClientError>(answer),
{
    broadcast use crate::protocol::bytes::group_le_len;

    let req = cuda::CtxCreateRequest { device_ordinal };
    super::law_request_passes(
        cuda_op::CTX_CREATE,
        req_id,
        seq,
        req.bytes(),
        proto::DEFAULT_MAX_FRAME_BODY,
    );
    req.law_whole();
    let resp = cuda::CtxCreateResponse { context: answer };
    super::law_reply_accepted(cuda_op::CTX_CREATE, req_id, reply_seq, resp.bytes());
    resp.law_whole();
}

/// The request frame of [`cuda_op::MEM_ALLOC`], with which to issue a
/// memory-allocation call of `size` bytes in `context`.
pub fn mem_alloc_request(context: Handle, size: u64, req_id: u32, seq: u64) -> (frame: Vec<u8>)
    ensures
        frame@ == proto::frame::request_bytes(
            cuda_op::MEM_ALLOC,
            req_id,
            seq,
            (cuda::MemAllocRequest { context, size }).bytes(),
        ),
{
    let mut body: Vec<u8> = Vec::new();
    (cuda::MemAllocRequest { context, size }).encode(&mut body);
    proto::frame::plain_frame(proto::FrameKind::Request, cuda_op::MEM_ALLOC, req_id, seq, &body)
}

/// What [`cuda_op::MEM_ALLOC`] yields on receiving `reply`.
pub open spec fn mem_alloc_result(reply: Seq<u8>) -> Result<Handle, ClientError> {
    match super::reply_body(reply, cuda_op::MEM_ALLOC) {
        Err(e) => Err(e),
        Ok(body) => match cuda::MemAllocResponse::parse(body) {
            Err(e) => Err(ClientError::Protocol(e)),
            Ok(resp) => super::handle_of_kind(resp.dptr, KIND_CUDA_DEVICE_PTR),
        },
    }
}

/// Read the reply to [`cuda_op::MEM_ALLOC`]: validate its opcode and kind,
/// decode the handle, and verify that it names an object of the right kind.
pub fn mem_alloc_reply(reply: &[u8]) -> (r: Result<Handle, ClientError>)
    ensures
        r == mem_alloc_result(reply@),
{
    let body: &[u8] = super::accept_reply(reply, cuda_op::MEM_ALLOC)?;
    match cuda::MemAllocResponse::decode(body) {
        Err(e) => Err(ClientError::Protocol(e)),
        Ok(resp) => super::check_kind(resp.dptr, KIND_CUDA_DEVICE_PTR),
    }
}

/// The request for [`cuda_op::MEM_ALLOC`] reaches a server as it was made, and
/// what the server answers is what the caller gets.
pub proof fn law_mem_alloc_exchange(
    context: Handle,
    size: u64,
    answer: Handle,
    req_id: u32,
    seq: u64,
    reply_seq: u64,
)
    requires
        answer.spec_kind() == KIND_CUDA_DEVICE_PTR,
    ensures
        crate::server::session::screen(
            proto::frame::request_bytes(
                cuda_op::MEM_ALLOC,
                req_id,
                seq,
                (cuda::MemAllocRequest { context, size }).bytes(),
            ),
            proto::DEFAULT_MAX_FRAME_BODY,
        ) matches Ok((h, body)) && h.opcode == cuda_op::MEM_ALLOC && h.req_id == req_id
            && cuda::MemAllocRequest::parse(body) == Ok::<
            cuda::MemAllocRequest,
            proto::ProtocolError,
        >(
            cuda::MemAllocRequest { context, size },
        ),
        mem_alloc_result(
            proto::frame::reply_bytes(
                cuda_op::MEM_ALLOC,
                req_id,
                reply_seq,
                (cuda::MemAllocResponse { dptr: answer }).bytes(),
            ),
        ) == Ok::<Handle, ClientError>(answer),
{
    broadcast use crate::protocol::bytes::group_le_len;

    let req = cuda::MemAllocRequest { context, size };
    super::law_request_passes(
        cuda_op::MEM_ALLOC,
        req_id,
        seq,
        req.bytes(),
        proto::DEFAULT_MAX_FRAME_BODY,
    );
    req.law_whole();
    let resp = cuda::MemAllocResponse { dptr: answer };
    super::law_reply_accepted(cuda_op::MEM_ALLOC, req_id, reply_seq, resp.bytes());
    resp.law_whole();
}

/// The request frame of [`cuda_op::MEM_FREE`], with which to issue a
/// memory-free call for `dptr`.
pub fn mem_free_request(dptr: Handle, req_id: u32, seq: u64) -> (frame: Vec<u8>)
    ensures
        frame@ == proto::frame::request_bytes(
            cuda_op::MEM_FREE,
            req_id,
            seq,
            (cuda::MemFreeRequest { dptr }).bytes(),
        ),
{
    let mut body: Vec<u8> = Vec::new();
    (cuda::MemFreeRequest { dptr }).encode(&mut body);
    proto::frame::plain_frame(proto::FrameKind::Request, cuda_op::MEM_FREE, req_id, seq, &body)
}

/// What [`cuda_op::MEM_FREE`] yields on receiving `reply`.
pub open spec fn mem_free_result(reply: Seq<u8>) -> Result<(), ClientError> {
    match super::reply_body(reply, cuda_op::MEM_FREE) {
        Err(e) => Err(e),
        Ok(_) => Ok(()),
    }
}

/// Read the reply to [`cuda_op::MEM_FREE`]: validate its opcode and kind. The
/// reply body is an empty acknowledgement, so nothing is decoded.
pub fn mem_free_reply(reply: &[u8]) -> (r: Result<(), ClientError>)
    ensures
        r == mem_free_result(reply@),
{
    let _body: &[u8] = super::accept_reply(reply, cuda_op::MEM_FREE)?;
    Ok(())
}

/// The request for [`cuda_op::MEM_FREE`] reaches a server as it was made, and
/// what the server answers is what the caller gets.
pub proof fn law_mem_free_exchange(dptr: Handle, req_id: u32, seq: u64, reply_seq: u64)
    ensures
        crate::server::session::screen(
            proto::frame::request_bytes(
                cuda_op::MEM_FREE,
                req_id,
                seq,
                (cuda::MemFreeRequest { dptr }).bytes(),
            ),
            proto::DEFAULT_MAX_FRAME_BODY,
        ) matches Ok((h, body)) && h.opcode == cuda_op::MEM_FREE && h.req_id == req_id
            && cuda::MemFreeRequest::parse(body) == Ok::<
            cuda::MemFreeRequest,
            proto::ProtocolError,
        >(
            cuda::MemFreeRequest { dptr },
        ),
        mem_free_result(
            proto::frame::reply_bytes(
                cuda_op::MEM_FREE,
                req_id,
                reply_seq,
                seq![],
            ),
        ) == Ok::<(), ClientError>(()),
{
    broadcast use crate::protocol::bytes::group_le_len;

    let req = cuda::MemFreeRequest { dptr };
    super::law_request_passes(
        cuda_op::MEM_FREE,
        req_id,
        seq,
        req.bytes(),
        proto::DEFAULT_MAX_FRAME_BODY,
    );
    req.law_whole();
    super::law_reply_accepted(cuda_op::MEM_FREE, req_id, reply_seq, seq![]);
}

/// The reply to [`cuda_op::CTX_CREATE`] is read by its opcode, its kind and its
/// body alone. A response under that opcode yields the handle it carries if that is
/// of the right kind, and is refused by the kind if not; where the body is too
/// short for a handle it is refused as an unexpected end. Any other frame is
/// refused as unexpected, and what is no frame for the reason that it is none.
pub proof fn law_ctx_create_reply(
    h: proto::FrameHeader,
    answer: Handle,
    rest: Seq<u8>,
    body: Seq<u8>,
    garbled: Seq<u8>,
)
    ensures
        h.opcode == cuda_op::CTX_CREATE && h.kind == proto::FrameKind::Response ==> {
            &&& ctx_create_result(
                proto::frame::frame_bytes(
                    h,
                    (cuda::CtxCreateResponse { context: answer }).bytes() + rest,
                ),
            ) == if answer.spec_kind() == KIND_CUDA_CONTEXT {
                Ok::<Handle, ClientError>(answer)
            } else {
                Err::<Handle, ClientError>(
                    ClientError::Protocol(
                        proto::ProtocolError::BadKind(answer.spec_kind() as u16),
                    ),
                )
            }
            &&& body.len() < 8 ==> ctx_create_result(proto::frame::frame_bytes(h, body)) == Err::<
                Handle,
                ClientError,
            >(ClientError::Protocol(proto::ProtocolError::UnexpectedEof))
        },
        h.opcode != cuda_op::CTX_CREATE || h.kind != proto::FrameKind::Response
            ==> ctx_create_result(
            proto::frame::frame_bytes(h, body),
        ) == Err::<Handle, ClientError>(
            ClientError::UnexpectedReply { opcode: h.opcode, kind: h.kind },
        ),
        proto::frame::parse_frame(garbled) matches Err(e) ==> ctx_create_result(garbled) == Err::<
            Handle,
            ClientError,
        >(ClientError::Protocol(e)),
{
    let resp = cuda::CtxCreateResponse { context: answer };
    resp.law_round_trip(rest);
    proto::frame::law_frame_round_trip(h, resp.bytes() + rest);
    proto::frame::law_frame_round_trip(h, body);
}

/// The reply to [`cuda_op::MEM_ALLOC`] is read by its opcode, its kind and its body
/// alone. A response under that opcode yields the handle it carries if that is of
/// the right kind, and is refused by the kind if not; where the body is too short
/// for a handle it is refused as an unexpected end. Any other frame is refused as
/// unexpected, and what is no frame for the reason that it is none.
pub proof fn law_mem_alloc_reply(
    h: proto::FrameHeader,
    answer: Handle,
    rest: Seq<u8>,
    body: Seq<u8>,
    garbled: Seq<u8>,
)
    ensures
        h.opcode == cuda_op::MEM_ALLOC && h.kind == proto::FrameKind::Response ==> {
            &&& mem_alloc_result(
                proto::frame::frame_bytes(
                    h,
                    (cuda::MemAllocResponse { dptr: answer }).bytes() + rest,
                ),
            ) == if answer.spec_kind() == KIND_CUDA_DEVICE_PTR {
                Ok::<Handle, ClientError>(answer)
            } else {
                Err::<Handle, ClientError>(
                    ClientError::Protocol(
                        proto::ProtocolError::BadKind(answer.spec_kind() as u16),
                    ),
                )
            }
            &&& body.len() < 8 ==> mem_alloc_result(proto::frame::frame_bytes(h, body)) == Err::<
                Handle,
                ClientError,
            >(ClientError::Protocol(proto::ProtocolError::UnexpectedEof))
        },
        h.opcode != cuda_op::MEM_ALLOC || h.kind != proto::FrameKind::Response ==> mem_alloc_result(
            proto::frame::frame_bytes(h, body),
        ) == Err::<Handle, ClientError>(
            ClientError::UnexpectedReply { opcode: h.opcode, kind: h.kind },
        ),
        proto::frame::parse_frame(garbled) matches Err(e) ==> mem_alloc_result(garbled) == Err::<
            Handle,
            ClientError,
        >(ClientError::Protocol(e)),
{
    let resp = cuda::MemAllocResponse { dptr: answer };
    resp.law_round_trip(rest);
    proto::frame::law_frame_round_trip(h, resp.bytes() + rest);
    proto::frame::law_frame_round_trip(h, body);
}

/// The reply to [`cuda_op::MEM_FREE`] is read by its opcode and its kind alone: a
/// response under that opcode is an acknowledgement. Any other frame is refused as
/// unexpected, and what is no frame for the reason that it is none.
pub proof fn law_mem_free_reply(
    h: proto::FrameHeader,
    body: Seq<u8>,
    garbled: Seq<u8>,
)
    ensures
        h.opcode == cuda_op::MEM_FREE && h.kind == proto::FrameKind::Response ==> {
            mem_free_result(proto::frame::frame_bytes(h, body)) == Ok::<(), ClientError>(())
        },
        h.opcode != cuda_op::MEM_FREE || h.kind != proto::FrameKind::Response ==> mem_free_result(
            proto::frame::frame_bytes(h, body),
        ) == Err::<(), ClientError>(
            ClientError::UnexpectedReply { opcode: h.opcode, kind: h.kind },
        ),
        proto::frame::parse_frame(garbled) matches Err(e) ==> mem_free_result(garbled) == Err::<
            (),
            ClientError,
        >(ClientError::Protocol(e)),
{
    proto::frame::law_frame_round_trip(h, body);
}

/// The request frame of [`cuda_op::CTX_CREATE`] carries what it was asked for: a
/// request under that opcode, the given request id and sequence number, and a body
/// of nothing but the arguments, in order.
pub proof fn law_ctx_create_request(
    device_ordinal: u32,
    req_id: u32,
    seq: u64,
    frame: Vec<u8>,
)
    requires
        call_ensures(ctx_create_request, (device_ordinal, req_id, seq), frame),
    ensures
        proto::frame::parse_frame(frame@) matches Ok((h, body)) && {
            &&& h.kind == proto::FrameKind::Request
            &&& h.opcode == 0x0300_0001
            &&& h.req_id == req_id
            &&& h.seq == seq
            &&& h.body_len == 4
            &&& body.len() == 4
            &&& proto::bytes::u32_at(body, 0) == device_ordinal
        },
{
    let req = cuda::CtxCreateRequest { device_ordinal };
    cuda::law_ctx_create_request_layout(req);
    proto::frame::law_made_frames(cuda_op::CTX_CREATE, req_id, seq, req.bytes());
}

/// The request frame of [`cuda_op::MEM_ALLOC`] carries what it was asked for: a
/// request under that opcode, the given request id and sequence number, and a body
/// of nothing but the arguments, in order.
pub proof fn law_mem_alloc_request(
    context: Handle,
    size: u64,
    req_id: u32,
    seq: u64,
    frame: Vec<u8>,
)
    requires
        call_ensures(mem_alloc_request, (context, size, req_id, seq), frame),
    ensures
        proto::frame::parse_frame(frame@) matches Ok((h, body)) && {
            &&& h.kind == proto::FrameKind::Request
            &&& h.opcode == 0x0300_0002
            &&& h.req_id == req_id
            &&& h.seq == seq
            &&& h.body_len == 16
            &&& body.len() == 16
            &&& proto::bytes::u64_at(body, 0) == context@
            &&& proto::bytes::u64_at(body, 8) == size
        },
{
    let req = cuda::MemAllocRequest { context, size };
    cuda::law_mem_alloc_request_layout(req);
    proto::frame::law_made_frames(cuda_op::MEM_ALLOC, req_id, seq, req.bytes());
}

/// The request frame of [`cuda_op::MEM_FREE`] carries what it was asked for: a
/// request under that opcode, the given request id and sequence number, and a body
/// of nothing but the arguments, in order.
pub proof fn law_mem_free_request(
    dptr: Handle,
    req_id: u32,
    seq: u64,
    frame: Vec<u8>,
)
    requires
        call_ensures(mem_free_request, (dptr, req_id, seq), frame),
    ensures
        proto::frame::parse_frame(frame@) matches Ok((h, body)) && {
            &&& h.kind == proto::FrameKind::Request
            &&& h.opcode == 0x0300_0003
            &&& h.req_id == req_id
            &&& h.seq == seq
            &&& h.body_len == 8
            &&& body.len() == 8
            &&& proto::bytes::u64_at(body, 0) == dptr@
        },
{
    let req = cuda::MemFreeRequest { dptr };
    cuda::law_mem_free_request_layout(req);
    proto::frame::law_made_frames(cuda_op::MEM_FREE, req_id, seq, req.bytes());
}

} // verus!
