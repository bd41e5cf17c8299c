//! HIP client shim.
//!
//! Builds the request frames of the HIP entrypoints and reads the frames that
//! the server's HIP backend replies with. Pure Rust: no driver, no GPU.
use vstd::prelude::*;

use super::ClientError;
use crate::protocol as proto;
use crate::protocol::hip;
use crate::protocol::hip_op;
use crate::protocol::wire::Wire;
use crate::protocol::Handle;

verus! {

broadcast use crate::protocol::bytes::lemma_append_to_empty;

/// Server object kind for a HIP device-pointer handle.
pub const KIND_HIP_DEVICE_PTR: u8 = 30;

/// Server object kind for a HIP stream handle.
pub const KIND_HIP_STREAM: u8 = 31;

/// The request frame of [`hip_op::MALLOC`], with which to issue a
/// memory-allocation call of `size` bytes.
pub fn malloc_request(size: u64, req_id: u32, seq: u64) -> (frame: Vec<u8>)
    ensures
        frame@ == proto::frame::request_bytes(
            hip_op::MALLOC,
            req_id,
            seq,
            (hip::MallocRequest { size }).bytes(),
        ),
{
    let mut body: Vec<u8> = Vec::new();
    (hip::MallocRequest { size }).encode(&mut body);
    proto::frame::plain_frame(proto::FrameKind::Request, hip_op::MALLOC, req_id, seq, &body)
}

/// What [`hip_op::MALLOC`] yields on receiving `reply`.
pub open spec fn malloc_result(reply: Seq<u8>) -> Result<Handle, ClientError> {
    match super::reply_body(reply, hip_op::MALLOC) {
        Err(e) => Err(e),
        Ok(body) => match hip::MallocResponse::parse(body) {
            Err(e) => Err(ClientError::Protocol(e)),
            Ok(resp) => super::handle_of_kind(resp.dptr, KIND_HIP_DEVICE_PTR),
        },
    }
}

/// Read the reply to [`hip_op::MALLOC`]: validate its opcode and kind, decode
/// the handle, and verify that it names an object of the right kind.
pub fn malloc_reply(reply: &[u8]) -> (r: Result<Handle, ClientError>)
    ensures
        r == malloc_result(reply@),
{
    let body: &[u8] = super::accept_reply(reply, hip_op::MALLOC)?;
    match hip::MallocResponse::decode(body) {
        Err(e) => Err(ClientError::Protocol(e)),
        Ok(resp) => super::check_kind(resp.dptr, KIND_HIP_DEVICE_PTR),
    }
}

/// The request for [`hip_op::MALLOC`] reaches a server as it was made, and
/// what the server answers is what the caller gets.
pub proof fn law_malloc_exchange(
    size: u64,
    answer: Handle,
    req_id: u32,
    seq: u64,
    reply_seq: u64,
)
    requires
        answer.spec_kind() == KIND_HIP_DEVICE_PTR,
    ensures
        crate::server::session::screen(
            proto::frame::request_bytes(
                hip_op::MALLOC,
                req_id,
                seq,
                (hip::MallocRequest { size }).bytes(),
            ),
            proto::DEFAULT_MAX_FRAME_BODY,
        ) matches Ok((h, body)) && h.opcode == hip_op::MALLOC && h.req_id == req_id
            && hip::MallocRequest::parse(body) == Ok::<hip::MallocRequest, proto::ProtocolError>(
            hip::MallocRequest { size },
        ),
        malloc_result(
            proto::frame::reply_bytes(
                hip_op::MALLOC,
                req_id,
                reply_seq,
                (hip::MallocResponse { dptr: answer }).bytes(),
            ),
        ) == Ok::<Handle, ClientError>(answer),
{
    broadcast use crate::protocol::bytes::group_le_len;

    let req = hip::MallocRequest { size };
    super::law_request_passes(
        hip_op::MALLOC,
        req_id,
        seq,
        req.bytes(),
        proto::DEFAULT_MAX_FRAME_BODY,
    );
    req.law_whole();
    let resp = hip::MallocResponse { dptr: answer };
    super::law_reply_accepted(hip_op::MALLOC, req_id, reply_seq, resp.bytes());
    resp.law_whole();
}

/// The request frame of [`hip_op::FREE`], with which to issue a memory-free
/// call for `dptr`.
pub fn free_request(dptr: Handle, req_id: u32, seq: u64) -> (frame: Vec<u8>)
    ensures
        frame@ == proto::frame::request_bytes(
            hip_op::FREE,
            req_id,
            seq,
            (hip::FreeRequest { dptr }).bytes(),
        ),
{
    let mut body: Vec<u8> = Vec::new();
    (hip::FreeRequest { dptr }).encode(&mut body);
    proto::frame::plain_frame(proto::FrameKind::Request, hip_op::FREE, req_id, seq, &body)
}

/// What [`hip_op::FREE`] yields on receiving `reply`.
pub open spec fn free_result(reply: Seq<u8>) -> Result<(), ClientError> {
    match super::reply_body(reply, hip_op::FREE) {
        Err(e) => Err(e),
        Ok(_) => Ok(()),
    }
}

/// Read the reply to [`hip_op::FREE`]: validate its opcode and kind. The reply
/// body is an empty acknowledgement, so nothing is decoded.
pub fn free_reply(reply: &[u8]) -> (r: Result<(), ClientError>)
    ensures
        r == free_result(reply@),
{
    let _body: &[u8] = super::accept_reply(reply, hip_op::FREE)?;
    Ok(())
}

/// The request for [`hip_op::FREE`] reaches a server as it was made, and what
/// the server answers is what the caller gets.
pub proof fn law_free_exchange(dptr: Handle, req_id: u32, seq: u64, reply_seq: u64)
    ensures
        crate::server::session::screen(
            proto::frame::request_bytes(
                hip_op::FREE,
                req_id,
                seq,
                (hip::FreeRequest { dptr }).bytes(),
            ),
            proto::DEFAULT_MAX_FRAME_BODY,
        ) matches Ok((h, body)) && h.opcode == hip_op::FREE && h.req_id == req_id
            && hip::FreeRequest::parse(body) == Ok::<hip::FreeRequest, proto::ProtocolError>(
            hip::FreeRequest { dptr },
        ),
        free_result(
            proto::frame::reply_bytes(
                hip_op::FREE,
                req_id,
                reply_seq,
                seq![],
            ),
        ) == Ok::<(), ClientError>(()),
{
    broadcast use crate::protocol::bytes::group_le_len;

    let req = hip::FreeRequest { dptr };
    super::law_request_passes(
        hip_op::FREE,
        req_id,
        seq,
        req.bytes(),
        proto::DEFAULT_MAX_FRAME_BODY,
    );
    req.law_whole();
    super::law_reply_accepted(hip_op::FREE, req_id, reply_seq, seq![]);
}

/// The request frame of [`hip_op::STREAM_CREATE`], with which to issue a
/// stream-creation call.
pub fn stream_create_request(req_id: u32, seq: u64) -> (frame: Vec<u8>)
    ensures
        frame@ == proto::frame::request_bytes(
            hip_op::STREAM_CREATE,
            req_id,
            seq,
            seq![],
        ),
{
    let body: Vec<u8> = Vec::new();
    proto::frame::plain_frame(
        proto::FrameKind::Request,
        hip_op::STREAM_CREATE,
        req_id,
        seq,
        &body,
    )
}

/// What [`hip_op::STREAM_CREATE`] yields on receiving `reply`.
pub open spec fn stream_create_result(reply: Seq<u8>) -> Result<Handle, ClientError> {
    match super::reply_body(reply, hip_op::STREAM_CREATE) {
        Err(e) => Err(e),
        Ok(body) => match hip::StreamCreateResponse::parse(body) {
            Err(e) => Err(ClientError::Protocol(e)),
            Ok(resp) => super::handle_of_kind(resp.stream, KIND_HIP_STREAM),
        },
    }
}

/// Read the reply to [`hip_op::STREAM_CREATE`]: validate its opcode and kind,
/// decode the handle, and verify that it names an object of the right kind.
pub fn stream_create_reply(reply: &[u8]) -> (r: Result<Handle, ClientError>)
    ensures
        r == stream_create_result(reply@),
{
    let body: &[u8] = super::accept_reply(reply, hip_op::STREAM_CREATE)?;
    match hip::StreamCreateResponse::decode(body) {
        Err(e) => Err(ClientError::Protocol(e)),
        Ok(resp) => super::check_kind(resp.stream, KIND_HIP_STREAM),
    }
}

/// The request for [`hip_op::STREAM_CREATE`] reaches a server as it was made,
/// and what the server answers is what the caller gets.
pub proof fn law_stream_create_exchange(answer: Handle, req_id: u32, seq: u64, reply_seq: u64)
    requires
        answer.spec_kind() == KIND_HIP_STREAM,
    ensures
        crate::server::session::screen(
            proto::frame::request_bytes(
                hip_op::STREAM_CREATE,
                req_id,
                seq,
                seq![],
            ),
            proto::DEFAULT_MAX_FRAME_BODY,
        ) matches Ok((h, body)) && h.opcode == hip_op::STREAM_CREATE && h.req_id == req_id
            && body.len() == 0,
        stream_create_result(
            proto::frame::reply_bytes(
                hip_op::STREAM_CREATE,
                req_id,
                reply_seq,
                (hip::StreamCreateResponse { stream: answer }).bytes(),
            ),
        ) == Ok::<Handle, ClientError>(answer),
{
    broadcast use crate::protocol::bytes::group_le_len;

    super::law_request_passes(
        hip_op::STREAM_CREATE,
        req_id,
        seq,
        seq![],
        proto::DEFAULT_MAX_FRAME_BODY,
    );
    let resp = hip::StreamCreateResponse { stream: answer };
    super::law_reply_accepted(hip_op::STREAM_CREATE, req_id, reply_seq, resp.bytes());
    resp.law_whole();
}

/// The reply to [`hip_op::MALLOC`] is read by its opcode, its kind and its body
/// alone. A response under that opcode yields the handle it carries if that is of
/// the right kind, and is refused by the kind if not; where the body is too short
/// for a handle it is refused as an unexpected end. Any other frame is refused as
/// unexpected, and what is no frame for the reason that it is none.
pub proof fn law_malloc_reply(
    h: proto::FrameHeader,
    answer: Handle,
    rest: Seq<u8>,
    body: Seq<u8>,
    garbled: Seq<u8>,
)
    ensures
        h.opcode == hip_op::MALLOC && h.kind == proto::FrameKind::Response ==> {
            &&& malloc_result(
                proto::frame::frame_bytes(
                    h,
                    (hip::MallocResponse { dptr: answer }).bytes() + rest,
                ),
            ) == if answer.spec_kind() == KIND_HIP_DEVICE_PTR {
                Ok::<Handle, ClientError>(answer)
            } else {
                Err::<Handle, ClientError>(
                    ClientError::Protocol(
                        proto::ProtocolError::BadKind(answer.spec_kind() as u16),
                    ),
                )
            }
            &&& body.len() < 8 ==> malloc_result(proto::frame::frame_bytes(h, body)) == Err::<
                Handle,
                ClientError,
            >(ClientError::Protocol(proto::ProtocolError::UnexpectedEof))
        },
        h.opcode != hip_op::MALLOC || h.kind != proto::FrameKind::Response ==> malloc_result(
            proto::frame::frame_bytes(h, body),
        ) == Err::<Handle, ClientError>(
            ClientError::UnexpectedReply { opcode: h.opcode, kind: h.kind },
        ),
        proto::frame::parse_frame(garbled) matches Err(e) ==> malloc_result(garbled) == Err::<
            Handle,
            ClientError,
        >(ClientError::Protocol(e)),
{
    let resp = hip::MallocResponse { dptr: answer };
    resp.law_round_trip(rest);
    proto::frame::law_frame_round_trip(h, resp.bytes() + rest);
    proto::frame::law_frame_round_trip(h, body);
}

/// The reply to [`hip_op::FREE`] is read by its opcode and its kind alone: a
/// response under that opcode is an acknowledgement. Any other frame is refused as
/// unexpected, and what is no frame for the reason that it is none.
pub proof fn law_free_reply(
    h: proto::FrameHeader,
    body: Seq<u8>,
    garbled: Seq<u8>,
)
    ensures
        h.opcode == hip_op::FREE && h.kind == proto::FrameKind::Response ==> {
            free_result(proto::frame::frame_bytes(h, body)) == Ok::<(), ClientError>(())
        },
        h.opcode != hip_op::FREE || h.kind != proto::FrameKind::Response ==> free_result(
            proto::frame::frame_bytes(h, body),
        ) == Err::<(), ClientError>(
            ClientError::UnexpectedReply { opcode: h.opcode, kind: h.kind },
        ),
        proto::frame::parse_frame(garbled) matches Err(e) ==> free_result(garbled) == Err::<
            (),
            ClientError,
        >(ClientError::Protocol(e)),
{
    proto::frame::law_frame_round_trip(h, body);
}

/// The reply to [`hip_op::STREAM_CREATE`] is read by its opcode, its kind and its
/// body alone. A response under that opcode yields the handle it carries if that is
/// of the right kind, and is refused by the kind if not; where the body is too
/// short for a handle it is refused as an unexpected end. Any other frame is
/// refused as unexpected, and what is no frame for the reason that it is none.
pub proof fn law_stream_create_reply(
    h: proto::FrameHeader,
    answer: Handle,
    rest: Seq<u8>,
    body: Seq<u8>,
    garbled: Seq<u8>,
)
    ensures
        h.opcode == hip_op::STREAM_CREATE && h.kind == proto::FrameKind::Response ==> {
            &&& stream_create_result(
                proto::frame::frame_bytes(
                    h,
                    (hip::StreamCreateResponse { stream: answer }).bytes() + rest,
                ),
            ) == if answer.spec_kind() == KIND_HIP_STREAM {
                Ok::<Handle, ClientError>(answer)
            } else {
                Err::<Handle, ClientError>(
                    ClientError::Protocol(
                        proto::ProtocolError::BadKind(answer.spec_kind() as u16),
                    ),
                )
            }
            &&& body.len() < 8
                ==> stream_create_result(proto::frame::frame_bytes(h, body)) == Err::<
                Handle,
                ClientError,
            >(ClientError::Protocol(proto::ProtocolError::UnexpectedEof))
        },
        h.opcode != hip_op::STREAM_CREATE || h.kind != proto::FrameKind::Response
            ==> stream_create_result(
            proto::frame::frame_bytes(h, body),
        ) == Err::<Handle, ClientError>(
            ClientError::UnexpectedReply { opcode: h.opcode, kind: h.kind },
        ),
        proto::frame::parse_frame(garbled) matches Err(e)
            ==> stream_create_result(garbled) == Err::<
            Handle,
            ClientError,
        >(ClientError::Protocol(e)),
{
    let resp = hip::StreamCreateResponse { stream: answer };
    resp.law_round_trip(rest);
    proto::frame::law_frame_round_trip(h, resp.bytes() + rest);
    proto::frame::law_frame_round_trip(h, body);
}

/// The request frame of [`hip_op::MALLOC`] carries what it was asked for: a request
/// under that opcode, the given request id and sequence number, and a body of
/// nothing but the arguments, in order.
pub proof fn law_malloc_request(
    size: u64,
    req_id: u32,
    seq: u64,
    frame: Vec<u8>,
)
    requires
        call_ensures(malloc_request, (size, req_id, seq), frame),
    ensures
        proto::frame::parse_frame(frame@) matches Ok((h, body)) && {
            &&& h.kind == proto::FrameKind::Request
            &&& h.opcode == 0x0500_0001
            &&& h.req_id == req_id
            &&& h.seq == seq
            &&& h.body_len == 8
            &&& body.len() == 8
            &&& proto::bytes::u64_at(body, 0) == size
        },
{
    let req = hip::MallocRequest { size };
    hip::law_malloc_request_layout(req);
    proto::frame::law_made_frames(hip_op::MALLOC, req_id, seq, req.bytes());
}

/// The request frame of [`hip_op::FREE`] carries what it was asked for: a request
/// under that opcode, the given request id and sequence number, and a body of
/// nothing but the arguments, in order.
pub proof fn law_free_request(
    dptr: Handle,
    req_id: u32,
    seq: u64,
    frame: Vec<u8>,
)
    requires
        call_ensures(free_request, (dptr, req_id, seq), frame),
    ensures
        proto::frame::parse_frame(frame@) matches Ok((h, body)) && {
            &&& h.kind == proto::FrameKind::Request
            &&& h.opcode == 0x0500_0002
            &&& h.req_id == req_id
            &&& h.seq == seq
            &&& h.body_len == 8
            &&& body.len() == 8
            &&& proto::bytes::u64_at(body, 0) == dptr@
        },
{
    let req = hip::FreeRequest { dptr };
    hip::law_free_request_layout(req);
    proto::frame::law_made_frames(hip_op::FREE, req_id, seq, req.bytes());
}

/// The request frame of [`hip_op::STREAM_CREATE`] carries what it was asked for: a
/// request under that opcode, the given request id and sequence number, and a body
/// of nothing.
pub proof fn law_stream_create_request(
    req_id: u32,
    seq: u64,
    frame: Vec<u8>,
)
    requires
        call_ensures(stream_create_request, (req_id, seq), frame),
    ensures
        proto::frame::parse_frame(frame@) matches Ok((h, body)) && {
            &&& h.kind == proto::FrameKind::Request
            &&& h.opcode == 0x0500_0003
            &&& h.req_id == req_id
            &&& h.seq == seq
            &&& h.body_len == 0
            &&& body.len() == 0
        },
{
    proto::frame::law_made_frames(hip_op::STREAM_CREATE, req_id, seq, seq![]);
}

} // verus!
