//! SYCL client shim.
//!
//! Builds the request frames of the SYCL entrypoints and reads the frames that
//! the server's SYCL backend replies with. Pure Rust: no driver, no GPU.
use vstd::prelude::*;

use super::ClientError;
use crate::protocol as proto;
use crate::protocol::sycl;
use crate::protocol::sycl_op;
use crate::protocol::wire::Wire;
use crate::protocol::Handle;

verus! {

broadcast use crate::protocol::bytes::lemma_append_to_empty;

/// Server object kind for a SYCL queue handle.
pub const KIND_SYCL_QUEUE: u8 = 90;

/// Server object kind for a SYCL device-pointer handle.
pub const KIND_SYCL_DEVICE_PTR: u8 = 91;

/// The request frame of [`sycl_op::QUEUE_CREATE`], with which to create a SYCL
/// queue.
pub fn queue_create_request(req_id: u32, seq: u64) -> (frame: Vec<u8>)
    ensures
        frame@ == proto::frame::request_bytes(
            sycl_op::QUEUE_CREATE,
            req_id,
            seq,
            seq![],
        ),
{
    let body: Vec<u8> = Vec::new();
    proto::frame::plain_frame(
        proto::FrameKind::Request,
        sycl_op::QUEUE_CREATE,
        req_id,
        seq,
        &body,
    )
}

/// What [`sycl_op::QUEUE_CREATE`] yields on receiving `reply`.
pub open spec fn queue_create_result(reply: Seq<u8>) -> Result<Handle, ClientError> {
    match super::reply_body(reply, sycl_op::QUEUE_CREATE) {
        Err(e) => Err(e),
        Ok(body) => match sycl::QueueCreateResponse::parse(body) {
            Err(e) => Err(ClientError::Protocol(e)),
            Ok(resp) => super::handle_of_kind(resp.queue, KIND_SYCL_QUEUE),
        },
    }
}

/// Read the reply to [`sycl_op::QUEUE_CREATE`]: validate its opcode and kind,
/// decode the handle, and verify that it names an object of the right kind.
pub fn queue_create_reply(reply: &[u8]) -> (r: Result<Handle, ClientError>)
    ensures
        r == queue_create_result(reply@),
{
    let body: &[u8] = super::accept_reply(reply, sycl_op::QUEUE_CREATE)?;
    match sycl::QueueCreateResponse::decode(body) {
        Err(e) => Err(ClientError::Protocol(e)),
        Ok(resp) => super::check_kind(resp.queue, KIND_SYCL_QUEUE),
    }
}

/// The request for [`sycl_op::QUEUE_CREATE`] reaches a server as it was made,
/// and what the server answers is what the caller gets.
pub proof fn law_queue_create_exchange(answer: Handle, req_id: u32, seq: u64, reply_seq: u64)
    requires
        answer.spec_kind() == KIND_SYCL_QUEUE,
    ensures
        crate::server::session::screen(
            proto::frame::request_bytes(
                sycl_op::QUEUE_CREATE,
                req_id,
                seq,
                seq![],
            ),
            proto::DEFAULT_MAX_FRAME_BODY,
        ) matches Ok((h, body)) && h.opcode == sycl_op::QUEUE_CREATE && h.req_id == req_id
            && body.len() == 0,
        queue_create_result(
            proto::frame::reply_bytes(
                sycl_op::QUEUE_CREATE,
                req_id,
                reply_seq,
                (sycl::QueueCreateResponse { queue: answer }).bytes(),
            ),
        ) == Ok::<Handle, ClientError>(answer),
{
    broadcast use crate::protocol::bytes::group_le_len;

    super::law_request_passes(
        sycl_op::QUEUE_CREATE,
        req_id,
        seq,
        seq![],
        proto::DEFAULT_MAX_FRAME_BODY,
    );
    let resp = sycl::QueueCreateResponse { queue: answer };
    super::law_reply_accepted(sycl_op::QUEUE_CREATE, req_id, reply_seq, resp.bytes());
    resp.law_whole();
}

/// The request frame of [`sycl_op::MALLOC_DEVICE`], with which to allocate
/// `size` bytes of device memory on `queue`.
pub fn malloc_device_request(queue: Handle, size: u64, req_id: u32, seq: u64) -> (frame: Vec<u8>)
    ensures
        frame@ == proto::frame::request_bytes(
            sycl_op::MALLOC_DEVICE,
            req_id,
            seq,
            (sycl::MallocDeviceRequest { queue, size }).bytes(),
        ),
{
    let mut body: Vec<u8> = Vec::new();
    (sycl::MallocDeviceRequest { queue, size }).encode(&mut body);
    proto::frame::plain_frame(
        proto::FrameKind::Request,
        sycl_op::MALLOC_DEVICE,
        req_id,
        seq,
        &body,
    )
}

/// What [`sycl_op::MALLOC_DEVICE`] yields on receiving `reply`.
pub open spec fn malloc_device_result(reply: Seq<u8>) -> Result<Handle, ClientError> {
    match super::reply_body(reply, sycl_op::MALLOC_DEVICE) {
        Err(e) => Err(e),
        Ok(body) => match sycl::MallocDeviceResponse::parse(body) {
            Err(e) => Err(ClientError::Protocol(e)),
            Ok(resp) => super::handle_of_kind(resp.ptr, KIND_SYCL_DEVICE_PTR),
        },
    }
}

/// Read the reply to [`sycl_op::MALLOC_DEVICE`]: validate its opcode and kind,
/// decode the handle, and verify that it names an object of the right kind.
pub fn malloc_device_reply(reply: &[u8]) -> (r: Result<Handle, ClientError>)
    ensures
        r == malloc_device_result(reply@),
{
    let body: &[u8] = super::accept_reply(reply, sycl_op::MALLOC_DEVICE)?;
    match sycl::MallocDeviceResponse::decode(body) {
        Err(e) => Err(ClientError::Protocol(e)),
        Ok(resp) => super::check_kind(resp.ptr, KIND_SYCL_DEVICE_PTR),
    }
}

/// The request for [`sycl_op::MALLOC_DEVICE`] reaches a server as it was made,
/// and what the server answers is what the caller gets.
pub proof fn law_malloc_device_exchange(
    queue: Handle,
    size: u64,
    answer: Handle,
    req_id: u32,
    seq: u64,
    reply_seq: u64,
)
    requires
        answer.spec_kind() == KIND_SYCL_DEVICE_PTR,
    ensures
        crate::server::session::screen(
            proto::frame::request_bytes(
                sycl_op::MALLOC_DEVICE,
                req_id,
                seq,
                (sycl::MallocDeviceRequest { queue, size }).bytes(),
            ),
            proto::DEFAULT_MAX_FRAME_BODY,
        ) matches Ok((h, body)) && h.opcode == sycl_op::MALLOC_DEVICE && h.req_id == req_id
            && sycl::MallocDeviceRequest::parse(body) == Ok::<
            sycl::MallocDeviceRequest,
            proto::ProtocolError,
        >(
            sycl::MallocDeviceRequest { queue, size },
        ),
        malloc_device_result(
            proto::frame::reply_bytes(
                sycl_op::MALLOC_DEVICE,
                req_id,
                reply_seq,
                (sycl::MallocDeviceResponse { ptr: answer }).bytes(),
            ),
        ) == Ok::<Handle, ClientError>(answer),
{
    broadcast use crate::protocol::bytes::group_le_len;

    let req = sycl::MallocDeviceRequest { queue, size };
    super::law_request_passes(
        sycl_op::MALLOC_DEVICE,
        req_id,
        seq,
        req.bytes(),
        proto::DEFAULT_MAX_FRAME_BODY,
    );
    req.law_whole();
    let resp = sycl::MallocDeviceResponse { ptr: answer };
    super::law_reply_accepted(sycl_op::MALLOC_DEVICE, req_id, reply_seq, resp.bytes());
    resp.law_whole();
}

/// The request frame of [`sycl_op::FREE`], with which to free the device
/// pointer named by `ptr`.
pub fn free_request(ptr: Handle, req_id: u32, seq: u64) -> (frame: Vec<u8>)
    ensures
        frame@ == proto::frame::request_bytes(
            sycl_op::FREE,
            req_id,
            seq,
            (sycl::FreeRequest { ptr }).bytes(),
        ),
{
    let mut body: Vec<u8> = Vec::new();
    (sycl::FreeRequest { ptr }).encode(&mut body);
    proto::frame::plain_frame(proto::FrameKind::Request, sycl_op::FREE, req_id, seq, &body)
}

/// What [`sycl_op::FREE`] yields on receiving `reply`.
pub open spec fn free_result(reply: Seq<u8>) -> Result<(), ClientError> {
    match super::reply_body(reply, sycl_op::FREE) {
        Err(e) => Err(e),
        Ok(_) => Ok(()),
    }
}

/// Read the reply to [`sycl_op::FREE`]: validate its opcode and kind. The
/// reply body is an empty acknowledgement, so nothing is decoded.
pub fn free_reply(reply: &[u8]) -> (r: Result<(), ClientError>)
    ensures
        r == free_result(reply@),
{
    let _body: &[u8] = super::accept_reply(reply, sycl_op::FREE)?;
    Ok(())
}

/// The request for [`sycl_op::FREE`] reaches a server as it was made, and what
/// the server answers is what the caller gets.
pub proof fn law_free_exchange(ptr: Handle, req_id: u32, seq: u64, reply_seq: u64)
    ensures
        crate::server::session::screen(
            proto::frame::request_bytes(
                sycl_op::FREE,
                req_id,
                seq,
                (sycl::FreeRequest { ptr }).bytes(),
            ),
            proto::DEFAULT_MAX_FRAME_BODY,
        ) matches Ok((h, body)) && h.opcode == sycl_op::FREE && h.req_id == req_id
            && sycl::FreeRequest::parse(body) == Ok::<sycl::FreeRequest, proto::ProtocolError>(
            sycl::FreeRequest { ptr },
        ),
        free_result(
            proto::frame::reply_bytes(
                sycl_op::FREE,
                req_id,
                reply_seq,
                seq![],
            ),
        ) == Ok::<(), ClientError>(()),
{
    broadcast use crate::protocol::bytes::group_le_len;

    let req = sycl::FreeRequest { ptr };
    super::law_request_passes(
        sycl_op::FREE,
        req_id,
        seq,
        req.bytes(),
        proto::DEFAULT_MAX_FRAME_BODY,
    );
    req.law_whole();
    super::law_reply_accepted(sycl_op::FREE, req_id, reply_seq, seq![]);
}

/// The reply to [`sycl_op::QUEUE_CREATE`] is read by its opcode, its kind and its
/// body alone. A response under that opcode yields the handle it carries if that is
/// of the right kind, and is refused by the kind if not; where the body is too
/// short for a handle it is refused as an unexpected end. Any other frame is
/// refused as unexpected, and what is no frame for the reason that it is none.
pub proof fn law_queue_create_reply(
    h: proto::FrameHeader,
    answer: Handle,
    rest: Seq<u8>,
    body: Seq<u8>,
    garbled: Seq<u8>,
)
    ensures
        h.opcode == sycl_op::QUEUE_CREATE && h.kind == proto::FrameKind::Response ==> {
            &&& queue_create_result(
                proto::frame::frame_bytes(
                    h,
                    (sycl::QueueCreateResponse { queue: answer }).bytes() + rest,
                ),
            ) == if answer.spec_kind() == KIND_SYCL_QUEUE {
                Ok::<Handle, ClientError>(answer)
            } else {
                Err::<Handle, ClientError>(
                    ClientError::Protocol(
                        proto::ProtocolError::BadKind(answer.spec_kind() as u16),
                    ),
                )
            }
            &&& body.len() < 8 ==> queue_create_result(proto::frame::frame_bytes(h, body)) == Err::<
                Handle,
                ClientError,
            >(ClientError::Protocol(proto::ProtocolError::UnexpectedEof))
        },
        h.opcode != sycl_op::QUEUE_CREATE || h.kind != proto::FrameKind::Response
            ==> queue_create_result(
            proto::frame::frame_bytes(h, body),
        ) == Err::<Handle, ClientError>(
            ClientError::UnexpectedReply { opcode: h.opcode, kind: h.kind },
        ),
        proto::frame::parse_frame(garbled) matches Err(e) ==> queue_create_result(garbled) == Err::<
            Handle,
            ClientError,
        >(ClientError::Protocol(e)),
{
    let resp = sycl::QueueCreateResponse { queue: answer };
    resp.law_round_trip(rest);
    proto::frame::law_frame_round_trip(h, resp.bytes() + rest);
    proto::frame::law_frame_round_trip(h, body);
}

/// The reply to [`sycl_op::MALLOC_DEVICE`] is read by its opcode, its kind and its
/// body alone. A response under that opcode yields the handle it carries if that is
/// of the right kind, and is refused by the kind if not; where the body is too
/// short for a handle it is refused as an unexpected end. Any other frame is
/// refused as unexpected, and what is no frame for the reason that it is none.
pub proof fn law_malloc_device_reply(
    h: proto::FrameHeader,
    answer: Handle,
    rest: Seq<u8>,
    body: Seq<u8>,
    garbled: Seq<u8>,
)
    ensures
        h.opcode == sycl_op::MALLOC_DEVICE && h.kind == proto::FrameKind::Response ==> {
            &&& malloc_device_result(
                proto::frame::frame_bytes(
                    h,
                    (sycl::MallocDeviceResponse { ptr: answer }).bytes() + rest,
                ),
            ) == if answer.spec_kind() == KIND_SYCL_DEVICE_PTR {
                Ok::<Handle, ClientError>(answer)
            } else {
                Err::<Handle, ClientError>(
                    ClientError::Protocol(
                        proto::ProtocolError::BadKind(answer.spec_kind() as u16),
                    ),
                )
            }
            &&& body.len() < 8
                ==> malloc_device_result(proto::frame::frame_bytes(h, body)) == Err::<
                Handle,
                ClientError,
            >(ClientError::Protocol(proto::ProtocolError::UnexpectedEof))
        },
        h.opcode != sycl_op::MALLOC_DEVICE || h.kind != proto::FrameKind::Response
            ==> malloc_device_result(
            proto::frame::frame_bytes(h, body),
        ) == Err::<Handle, ClientError>(
            ClientError::UnexpectedReply { opcode: h.opcode, kind: h.kind },
        ),
        proto::frame::parse_frame(garbled) matches Err(e)
            ==> malloc_device_result(garbled) == Err::<
            Handle,
            ClientError,
        >(ClientError::Protocol(e)),
{
    let resp = sycl::MallocDeviceResponse { ptr: answer };
    resp.law_round_trip(rest);
    proto::frame::law_frame_round_trip(h, resp.bytes() + rest);
    proto::frame::law_frame_round_trip(h, body);
}

/// The reply to [`sycl_op::FREE`] is read by its opcode and its kind alone: a
/// response under that opcode is an acknowledgement. Any other frame is refused as
/// unexpected, and what is no frame for the reason that it is none.
pub proof fn law_free_reply(
    h: proto::FrameHeader,
    body: Seq<u8>,
    garbled: Seq<u8>,
)
    ensures
        h.opcode == sycl_op::FREE && h.kind == proto::FrameKind::Response ==> {
            free_result(proto::frame::frame_bytes(h, body)) == Ok::<(), ClientError>(())
        },
        h.opcode != sycl_op::FREE || h.kind != proto::FrameKind::Response ==> free_result(
            proto::frame::frame_bytes(h, body),
        ) == Err::<(), ClientError>(
            ClientError::UnexpectedReply { opcode: h.opcode, kind: h.kind },
        ),
        proto::frame::parse_frame(garbled) matches Err(e) ==> free_result(garbled) == Err::<
            (),
            ClientError,
        >(ClientError::Protocol(e)),
{
    proto::frame::law_frame_round_trip(h, body);
}

/// The request frame of [`sycl_op::QUEUE_CREATE`] carries what it was asked for: a
/// request under that opcode, the given request id and sequence number, and a body
/// of nothing.
pub proof fn law_queue_create_request(
    req_id: u32,
    seq: u64,
    frame: Vec<u8>,
)
    requires
        call_ensures(queue_create_request, (req_id, seq), frame),
    ensures
        proto::frame::parse_frame(frame@) matches Ok((h, body)) && {
            &&& h.kind == proto::FrameKind::Request
            &&& h.opcode == 0x0A00_0001
            &&& h.req_id == req_id
            &&& h.seq == seq
            &&& h.body_len == 0
            &&& body.len() == 0
        },
{
    proto::frame::law_made_frames(sycl_op::QUEUE_CREATE, req_id, seq, seq![]);
}

/// The request frame of [`sycl_op::MALLOC_DEVICE`] carries what it was asked for: a
/// request under that opcode, the given request id and sequence number, and a body
/// of nothing but the arguments, in order.
pub proof fn law_malloc_device_request(
    queue: Handle,
    size: u64,
    req_id: u32,
    seq: u64,
    frame: Vec<u8>,
)
    requires
        call_ensures(malloc_device_request, (queue, size, req_id, seq), frame),
    ensures
        proto::frame::parse_frame(frame@) matches Ok((h, body)) && {
            &&& h.kind == proto::FrameKind::Request
            &&& h.opcode == 0x0A00_0002
            &&& h.req_id == req_id
            &&& h.seq == seq
            &&& h.body_len == 16
            &&& body.len() == 16
            &&& proto::bytes::u64_at(body, 0) == queue@
            &&& proto::bytes::u64_at(body, 8) == size
        },
{
    let req = sycl::MallocDeviceRequest { queue, size };
    sycl::law_malloc_device_request_layout(req);
    proto::frame::law_made_frames(sycl_op::MALLOC_DEVICE, req_id, seq, req.bytes());
}

/// The request frame of [`sycl_op::FREE`] carries what it was asked for: a request
/// under that opcode, the given request id and sequence number, and a body of
/// nothing but the arguments, in order.
pub proof fn law_free_request(
    ptr: Handle,
    req_id: u32,
    seq: u64,
    frame: Vec<u8>,
)
    requires
        call_ensures(free_request, (ptr, req_id, seq), frame),
    ensures
        proto::frame::parse_frame(frame@) matches Ok((h, body)) && {
            &&& h.kind == proto::FrameKind::Request
            &&& h.opcode == 0x0A00_0003
            &&& h.req_id == req_id
            &&& h.seq == seq
            &&& h.body_len == 8
            &&& body.len() == 8
            &&& proto::bytes::u64_at(body, 0) == ptr@
        },
{
    let req = sycl::FreeRequest { ptr };
    sycl::law_free_request_layout(req);
    proto::frame::law_made_frames(sycl_op::FREE, req_id, seq, req.bytes());
}

} // verus!
