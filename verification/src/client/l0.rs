//! Level Zero client shim.
//!
//! Builds the request frames of the Level Zero entrypoints and reads the
//! frames that the server's Level Zero backend replies with. Pure Rust: no
//! driver, no GPU.
use vstd::prelude::*;

use super::ClientError;
use crate::protocol as proto;
use crate::protocol::l0;
use crate::protocol::l0_op;
use crate::protocol::wire::Wire;
use crate::protocol::Handle;

verus! {

broadcast use crate::protocol::bytes::lemma_append_to_empty;

/// Server object kind for a Level Zero context handle.
pub const KIND_CONTEXT: u8 = 50;

/// Server object kind for a Level Zero device-memory pointer handle.
pub const KIND_DEVICE_MEM: u8 = 51;

/// The request frame of [`l0_op::CONTEXT_CREATE`], with which to issue
/// `zeContextCreate`.
pub fn context_create_request(req_id: u32, seq: u64) -> (frame: Vec<u8>)
    ensures
        frame@ == proto::frame::request_bytes(
            l0_op::CONTEXT_CREATE,
            req_id,
            seq,
            seq![],
        ),
{
    let body: Vec<u8> = Vec::new();
    proto::frame::plain_frame(
        proto::FrameKind::Request,
        l0_op::CONTEXT_CREATE,
        req_id,
        seq,
        &body,
    )
}

/// What [`l0_op::CONTEXT_CREATE`] yields on receiving `reply`.
pub open spec fn context_create_result(reply: Seq<u8>) -> Result<Handle, ClientError> {
    match super::reply_body(reply, l0_op::CONTEXT_CREATE) {
        Err(e) => Err(e),
        Ok(body) => match l0::ContextCreateResponse::parse(body) {
            Err(e) => Err(ClientError::Protocol(e)),
            Ok(resp) => super::handle_of_kind(resp.context, KIND_CONTEXT),
        },
    }
}

/// Read the reply to [`l0_op::CONTEXT_CREATE`]: validate its opcode and kind,
/// decode the handle, and verify that it names an object of the right kind.
pub fn context_create_reply(reply: &[u8]) -> (r: Result<Handle, ClientError>)
    ensures
        r == context_create_result(reply@),
{
    let body: &[u8] = super::accept_reply(reply, l0_op::CONTEXT_CREATE)?;
    match l0::ContextCreateResponse::decode(body) {
        Err(e) => Err(ClientError::Protocol(e)),
        Ok(resp) => super::check_kind(resp.context, KIND_CONTEXT),
    }
}

/// The request for [`l0_op::CONTEXT_CREATE`] reaches a server as it was made,
/// and what the server answers is what the caller gets.
pub proof fn law_context_create_exchange(
    answer: Handle,
    req_id: u32,
    seq: u64,
    reply_seq: u64,
)
    requires
        answer.spec_kind() == KIND_CONTEXT,
    ensures
        crate::server::session::screen(
            proto::frame::request_bytes(
                l0_op::CONTEXT_CREATE,
                req_id,
                seq,
                seq![],
            ),
            proto::DEFAULT_MAX_FRAME_BODY,
        ) matches Ok((h, body)) && h.opcode == l0_op::CONTEXT_CREATE && h.req_id == req_id
            && body.len() == 0,
        context_create_result(
            proto::frame::reply_bytes(
                l0_op::CONTEXT_CREATE,
                req_id,
                reply_seq,
                (l0::ContextCreateResponse { context: answer }).bytes(),
            ),
        ) == Ok::<Handle, ClientError>(answer),
{
    broadcast use crate::protocol::bytes::group_le_len;

    super::law_request_passes(
        l0_op::CONTEXT_CREATE,
        req_id,
        seq,
        seq![],
        proto::DEFAULT_MAX_FRAME_BODY,
    );
    let resp = l0::ContextCreateResponse { context: answer };
    super::law_reply_accepted(l0_op::CONTEXT_CREATE, req_id, reply_seq, resp.bytes());
    resp.law_whole();
}

/// The request frame of [`l0_op::MEM_ALLOC_DEVICE`], with which to issue
/// `zeMemAllocDevice`.
pub fn mem_alloc_device_request(
    context: Handle,
    size: u64,
    req_id: u32,
    seq: u64,
) -> (frame: Vec<u8>)
    ensures
        frame@ == proto::frame::request_bytes(
            l0_op::MEM_ALLOC_DEVICE,
            req_id,
            seq,
            (l0::MemAllocDeviceRequest { context, size }).bytes(),
        ),
{
    let mut body: Vec<u8> = Vec::new();
    (l0::MemAllocDeviceRequest { context, size }).encode(&mut body);
    proto::frame::plain_frame(
        proto::FrameKind::Request,
        l0_op::MEM_ALLOC_DEVICE,
        req_id,
        seq,
        &body,
    )
}

/// What [`l0_op::MEM_ALLOC_DEVICE`] yields on receiving `reply`.
pub open spec fn mem_alloc_device_result(reply: Seq<u8>) -> Result<Handle, ClientError> {
    match super::reply_body(reply, l0_op::MEM_ALLOC_DEVICE) {
        Err(e) => Err(e),
        Ok(body) => match l0::MemAllocDeviceResponse::parse(body) {
            Err(e) => Err(ClientError::Protocol(e)),
            Ok(resp) => super::handle_of_kind(resp.ptr, KIND_DEVICE_MEM),
        },
    }
}

/// Read the reply to [`l0_op::MEM_ALLOC_DEVICE`]: validate its opcode and
/// kind, decode the handle, and verify that it names an object of the right
/// kind.
pub fn mem_alloc_device_reply(reply: &[u8]) -> (r: Result<Handle, ClientError>)
    ensures
        r == mem_alloc_device_result(reply@),
{
    let body: &[u8] = super::accept_reply(reply, l0_op::MEM_ALLOC_DEVICE)?;
    match l0::MemAllocDeviceResponse::decode(body) {
        Err(e) => Err(ClientError::Protocol(e)),
        Ok(resp) => super::check_kind(resp.ptr, KIND_DEVICE_MEM),
    }
}

/// The request for [`l0_op::MEM_ALLOC_DEVICE`] reaches a server as it was
/// made, and what the server answers is what the caller gets.
pub proof fn law_mem_alloc_device_exchange(
    context: Handle,
    size: u64,
    answer: Handle,
    req_id: u32,
    seq: u64,
    reply_seq: u64,
)
    requires
        answer.spec_kind() == KIND_DEVICE_MEM,
    ensures
        crate::server::session::screen(
            proto::frame::request_bytes(
                l0_op::MEM_ALLOC_DEVICE,
                req_id,
                seq,
                (l0::MemAllocDeviceRequest { context, size }).bytes(),
            ),
            proto::DEFAULT_MAX_FRAME_BODY,
        ) matches Ok((h, body)) && h.opcode == l0_op::MEM_ALLOC_DEVICE && h.req_id == req_id
            && l0::MemAllocDeviceRequest::parse(body) == Ok::<
            l0::MemAllocDeviceRequest,
            proto::ProtocolError,
        >(
            l0::MemAllocDeviceRequest { context, size },
        ),
        mem_alloc_device_result(
            proto::frame::reply_bytes(
                l0_op::MEM_ALLOC_DEVICE,
                req_id,
                reply_seq,
                (l0::MemAllocDeviceResponse { ptr: answer }).bytes(),
            ),
        ) == Ok::<Handle, ClientError>(answer),
{
    broadcast use crate::protocol::bytes::group_le_len;

    let req = l0::MemAllocDeviceRequest { context, size };
    super::law_request_passes(
        l0_op::MEM_ALLOC_DEVICE,
        req_id,
        seq,
        req.bytes(),
        proto::DEFAULT_MAX_FRAME_BODY,
    );
    req.law_whole();
    let resp = l0::MemAllocDeviceResponse { ptr: answer };
    super::law_reply_accepted(l0_op::MEM_ALLOC_DEVICE, req_id, reply_seq, resp.bytes());
    resp.law_whole();
}

/// The request frame of [`l0_op::MEM_FREE`], with which to issue `zeMemFree`,
/// releasing the device pointer named by `ptr`.
pub fn mem_free_request(ptr: Handle, req_id: u32, seq: u64) -> (frame: Vec<u8>)
    ensures
        frame@ == proto::frame::request_bytes(
            l0_op::MEM_FREE,
            req_id,
            seq,
            (l0::MemFreeRequest { ptr }).bytes(),
        ),
{
    let mut body: Vec<u8> = Vec::new();
    (l0::MemFreeRequest { ptr }).encode(&mut body);
    proto::frame::plain_frame(proto::FrameKind::Request, l0_op::MEM_FREE, req_id, seq, &body)
}

/// What [`l0_op::MEM_FREE`] yields on receiving `reply`.
pub open spec fn mem_free_result(reply: Seq<u8>) -> Result<(), ClientError> {
    match super::reply_body(reply, l0_op::MEM_FREE) {
        Err(e) => Err(e),
        Ok(_) => Ok(()),
    }
}

/// Read the reply to [`l0_op::MEM_FREE`]: validate its opcode and kind. The
/// reply body is an empty acknowledgement, so nothing is decoded.
pub fn mem_free_reply(reply: &[u8]) -> (r: Result<(), ClientError>)
    ensures
        r == mem_free_result(reply@),
{
    let _body: &[u8] = super::accept_reply(reply, l0_op::MEM_FREE)?;
    Ok(())
}

/// The request for [`l0_op::MEM_FREE`] reaches a server as it was made, and
/// what the server answers is what the caller gets.
pub proof fn law_mem_free_exchange(ptr: Handle, req_id: u32, seq: u64, reply_seq: u64)
    ensures
        crate::server::session::screen(
            proto::frame::request_bytes(
                l0_op::MEM_FREE,
                req_id,
                seq,
                (l0::MemFreeRequest { ptr }).bytes(),
            ),
            proto::DEFAULT_MAX_FRAME_BODY,
        ) matches Ok((h, body)) && h.opcode == l0_op::MEM_FREE && h.req_id == req_id
            && l0::MemFreeRequest::parse(body) == Ok::<l0::MemFreeRequest, proto::ProtocolError>(
            l0::MemFreeRequest { ptr },
        ),
        mem_free_result(
            proto::frame::reply_bytes(
                l0_op::MEM_FREE,
                req_id,
                reply_seq,
                seq![],
            ),
        ) == Ok::<(), ClientError>(()),
{
    broadcast use crate::protocol::bytes::group_le_len;

    let req = l0::MemFreeRequest { ptr };
    super::law_request_passes(
        l0_op::MEM_FREE,
        req_id,
        seq,
        req.bytes(),
        proto::DEFAULT_MAX_FRAME_BODY,
    );
    req.law_whole();
    super::law_reply_accepted(l0_op::MEM_FREE, req_id, reply_seq, seq![]);
}

/// The reply to [`l0_op::CONTEXT_CREATE`] is read by its opcode, its kind and its
/// body alone. A response under that opcode yields the handle it carries if that is
/// of the right kind, and is refused by the kind if not; where the body is too
/// short for a handle it is refused as an unexpected end. Any other frame is
/// refused as unexpected, and what is no frame for the reason that it is none.
pub proof fn law_context_create_reply(
    h: proto::FrameHeader,
    answer: Handle,
    rest: Seq<u8>,
    body: Seq<u8>,
    garbled: Seq<u8>,
)
    ensures
        h.opcode == l0_op::CONTEXT_CREATE && h.kind == proto::FrameKind::Response ==> {
            &&& context_create_result(
                proto::frame::frame_bytes(
                    h,
                    (l0::ContextCreateResponse { context: answer }).bytes() + rest,
                ),
            ) == if answer.spec_kind() == KIND_CONTEXT {
                Ok::<Handle, ClientError>(answer)
            } else {
                Err::<Handle, ClientError>(
                    ClientError::Protocol(
                        proto::ProtocolError::BadKind(answer.spec_kind() as u16),
                    ),
                )
            }
            &&& body.len() < 8
                ==> context_create_result(proto::frame::frame_bytes(h, body)) == Err::<
                Handle,
                ClientError,
            >(ClientError::Protocol(proto::ProtocolError::UnexpectedEof))
        },
        h.opcode != l0_op::CONTEXT_CREATE || h.kind != proto::FrameKind::Response
            ==> context_create_result(
            proto::frame::frame_bytes(h, body),
        ) == Err::<Handle, ClientError>(
            ClientError::UnexpectedReply { opcode: h.opcode, kind: h.kind },
        ),
        proto::frame::parse_frame(garbled) matches Err(e)
            ==> context_create_result(garbled) == Err::<
            Handle,
            ClientError,
        >(ClientError::Protocol(e)),
{
    let resp = l0::ContextCreateResponse { context: answer };
    resp.law_round_trip(rest);
    proto::frame::law_frame_round_trip(h, resp.bytes() + rest);
    proto::frame::law_frame_round_trip(h, body);
}

/// The reply to [`l0_op::MEM_ALLOC_DEVICE`] is read by its opcode, its kind and its
/// body alone. A response under that opcode yields the handle it carries if that is
/// of the right kind, and is refused by the kind if not; where the body is too
/// short for a handle it is refused as an unexpected end. Any other frame is
/// refused as unexpected, and what is no frame for the reason that it is none.
pub proof fn law_mem_alloc_device_reply(
    h: proto::FrameHeader,
    answer: Handle,
    rest: Seq<u8>,
    body: Seq<u8>,
    garbled: Seq<u8>,
)
    ensures
        h.opcode == l0_op::MEM_ALLOC_DEVICE && h.kind == proto::FrameKind::Response ==> {
            &&& mem_alloc_device_result(
                proto::frame::frame_bytes(
                    h,
                    (l0::MemAllocDeviceResponse { ptr: answer }).bytes() + rest,
                ),
            ) == if answer.spec_kind() == KIND_DEVICE_MEM {
                Ok::<Handle, ClientError>(answer)
            } else {
                Err::<Handle, ClientError>(
                    ClientError::Protocol(
                        proto::ProtocolError::BadKind(answer.spec_kind() as u16),
                    ),
                )
            }
            &&& body.len() < 8
                ==> mem_alloc_device_result(proto::frame::frame_bytes(h, body)) == Err::<
                Handle,
                ClientError,
            >(ClientError::Protocol(proto::ProtocolError::UnexpectedEof))
        },
        h.opcode != l0_op::MEM_ALLOC_DEVICE || h.kind != proto::FrameKind::Response
            ==> mem_alloc_device_result(
            proto::frame::frame_bytes(h, body),
        ) == Err::<Handle, ClientError>(
            ClientError::UnexpectedReply { opcode: h.opcode, kind: h.kind },
        ),
        proto::frame::parse_frame(garbled) matches Err(e)
            ==> mem_alloc_device_result(garbled) == Err::<
            Handle,
            ClientError,
        >(ClientError::Protocol(e)),
{
    let resp = l0::MemAllocDeviceResponse { ptr: answer };
    resp.law_round_trip(rest);
    proto::frame::law_frame_round_trip(h, resp.bytes() + rest);
    proto::frame::law_frame_round_trip(h, body);
}

/// The reply to [`l0_op::MEM_FREE`] is read by its opcode and its kind alone: a
/// response under that opcode is an acknowledgement. Any other frame is refused as
/// unexpected, and what is no frame for the reason that it is none.
pub proof fn law_mem_free_reply(
    h: proto::FrameHeader,
    body: Seq<u8>,
    garbled: Seq<u8>,
)
    ensures
        h.opcode == l0_op::MEM_FREE && h.kind == proto::FrameKind::Response ==> {
            mem_free_result(proto::frame::frame_bytes(h, body)) == Ok::<(), ClientError>(())
        },
        h.opcode != l0_op::MEM_FREE || h.kind != proto::FrameKind::Response ==> mem_free_result(
            proto::frame::frame_bytes(h, body),
        ) == Err::<(), ClientError>(
            ClientError::UnexpectedReply { opcode: h.opcode, kind: h.kind },
        ),
        proto::frame::parse_frame(garbled) matches Err(e) ==> mem_free_result(garbled) == Err::<
            (),
            ClientError,
        >(ClientError::Protocol(e)),
{
    proto::frame::law_frame_round_trip(h, body);
}

/// The request frame of [`l0_op::CONTEXT_CREATE`] carries what it was asked for: a
/// request under that opcode, the given request id and sequence number, and a body
/// of nothing.
pub proof fn law_context_create_request(
    req_id: u32,
    seq: u64,
    frame: Vec<u8>,
)
    requires
        call_ensures(context_create_request, (req_id, seq), frame),
    ensures
        proto::frame::parse_frame(frame@) matches Ok((h, body)) && {
            &&& h.kind == proto::FrameKind::Request
            &&& h.opcode == 0x0600_0001
            &&& h.req_id == req_id
            &&& h.seq == seq
            &&& h.body_len == 0
            &&& body.len() == 0
        },
{
    proto::frame::law_made_frames(l0_op::CONTEXT_CREATE, req_id, seq, seq![]);
}

/// The request frame of [`l0_op::MEM_ALLOC_DEVICE`] carries what it was asked for:
/// a request under that opcode, the given request id and sequence number, and a
/// body of nothing but the arguments, in order.
pub proof fn law_mem_alloc_device_request(
    context: Handle,
    size: u64,
    req_id: u32,
    seq: u64,
    frame: Vec<u8>,
)
    requires
        call_ensures(mem_alloc_device_request, (context, size, req_id, seq), frame),
    ensures
        proto::frame::parse_frame(frame@) matches Ok((h, body)) && {
            &&& h.kind == proto::FrameKind::Request
            &&& h.opcode == 0x0600_0002
            &&& h.req_id == req_id
            &&& h.seq == seq
            &&& h.body_len == 16
            &&& body.len() == 16
            &&& proto::bytes::u64_at(body, 0) == context@
            &&& proto::bytes::u64_at(body, 8) == size
        },
{
    let req = l0::MemAllocDeviceRequest { context, size };
    l0::law_mem_alloc_device_request_layout(req);
    proto::frame::law_made_frames(l0_op::MEM_ALLOC_DEVICE, req_id, seq, req.bytes());
}

/// The request frame of [`l0_op::MEM_FREE`] carries what it was asked for: a
/// request under that opcode, the given request id and sequence number, and a body
/// of nothing but the arguments, in order.
pub proof fn law_mem_free_request(
    ptr: Handle,
    req_id: u32,
    seq: u64,
    frame: Vec<u8>,
)
    requires
        call_ensures(mem_free_request, (ptr, req_id, seq), frame),
    ensures
        proto::frame::parse_frame(frame@) matches Ok((h, body)) && {
            &&& h.kind == proto::FrameKind::Request
            &&& h.opcode == 0x0600_0003
            &&& h.req_id == req_id
            &&& h.seq == seq
            &&& h.body_len == 8
            &&& body.len() == 8
            &&& proto::bytes::u64_at(body, 0) == ptr@
        },
{
    let req = l0::MemFreeRequest { ptr };
    l0::law_mem_free_request_layout(req);
    proto::frame::law_made_frames(l0_op::MEM_FREE, req_id, seq, req.bytes());
}

} // verus!
