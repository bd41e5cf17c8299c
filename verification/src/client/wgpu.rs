//! WebGPU client shim.
//!
//! Builds the request frames of the WebGPU entrypoints and reads the frames
//! that the server's WebGPU backend replies with. Pure Rust: no driver, no
//! GPU.
use vstd::prelude::*;

use super::ClientError;
use crate::protocol as proto;
use crate::protocol::wgpu;
use crate::protocol::wgpu_op;
use crate::protocol::wire::Wire;
use crate::protocol::Handle;

verus! {

broadcast use crate::protocol::bytes::lemma_append_to_empty;

/// Server object kind for a WebGPU device handle.
pub const KIND_WGPU_DEVICE: u8 = 70;

/// Server object kind for a WebGPU buffer handle.
pub const KIND_WGPU_BUFFER: u8 = 71;

/// The request frame of [`wgpu_op::REQUEST_DEVICE`], with which to issue a
/// `requestDevice` call.
pub fn request_device_request(req_id: u32, seq: u64) -> (frame: Vec<u8>)
    ensures
        frame@ == proto::frame::request_bytes(
            wgpu_op::REQUEST_DEVICE,
            req_id,
            seq,
            seq![],
        ),
{
    let body: Vec<u8> = Vec::new();
    proto::frame::plain_frame(
        proto::FrameKind::Request,
        wgpu_op::REQUEST_DEVICE,
        req_id,
        seq,
        &body,
    )
}

/// What [`wgpu_op::REQUEST_DEVICE`] yields on receiving `reply`.
pub open spec fn request_device_result(reply: Seq<u8>) -> Result<Handle, ClientError> {
    match super::reply_body(reply, wgpu_op::REQUEST_DEVICE) {
        Err(e) => Err(e),
        Ok(body) => match wgpu::RequestDeviceResponse::parse(body) {
            Err(e) => Err(ClientError::Protocol(e)),
            Ok(resp) => super::handle_of_kind(resp.device, KIND_WGPU_DEVICE),
        },
    }
}

/// Read the reply to [`wgpu_op::REQUEST_DEVICE`]: validate its opcode and
/// kind, decode the handle, and verify that it names an object of the right
/// kind.
pub fn request_device_reply(reply: &[u8]) -> (r: Result<Handle, ClientError>)
    ensures
        r == request_device_result(reply@),
{
    let body: &[u8] = super::accept_reply(reply, wgpu_op::REQUEST_DEVICE)?;
    match wgpu::RequestDeviceResponse::decode(body) {
        Err(e) => Err(ClientError::Protocol(e)),
        Ok(resp) => super::check_kind(resp.device, KIND_WGPU_DEVICE),
    }
}

/// The request for [`wgpu_op::REQUEST_DEVICE`] reaches a server as it was
/// made, and what the server answers is what the caller gets.
pub proof fn law_request_device_exchange(
    answer: Handle,
    req_id: u32,
    seq: u64,
    reply_seq: u64,
)
    requires
        answer.spec_kind() == KIND_WGPU_DEVICE,
    ensures
        crate::server::session::screen(
            proto::frame::request_bytes(
                wgpu_op::REQUEST_DEVICE,
                req_id,
                seq,
                seq![],
            ),
            proto::DEFAULT_MAX_FRAME_BODY,
        ) matches Ok((h, body)) && h.opcode == wgpu_op::REQUEST_DEVICE && h.req_id == req_id
            && body.len() == 0,
        request_device_result(
            proto::frame::reply_bytes(
                wgpu_op::REQUEST_DEVICE,
                req_id,
                reply_seq,
                (wgpu::RequestDeviceResponse { device: answer }).bytes(),
            ),
        ) == Ok::<Handle, ClientError>(answer),
{
    broadcast use crate::protocol::bytes::group_le_len;

    super::law_request_passes(
        wgpu_op::REQUEST_DEVICE,
        req_id,
        seq,
        seq![],
        proto::DEFAULT_MAX_FRAME_BODY,
    );
    let resp = wgpu::RequestDeviceResponse { device: answer };
    super::law_reply_accepted(wgpu_op::REQUEST_DEVICE, req_id, reply_seq, resp.bytes());
    resp.law_whole();
}

/// The request frame of [`wgpu_op::CREATE_BUFFER`], with which to issue a
/// `createBuffer` call of `size` bytes with `usage` flags on `device`.
pub fn create_buffer_request(
    device: Handle,
    size: u64,
    usage: u32,
    req_id: u32,
    seq: u64,
) -> (frame: Vec<u8>)
    ensures
        frame@ == proto::frame::request_bytes(
            wgpu_op::CREATE_BUFFER,
            req_id,
            seq,
            (wgpu::CreateBufferRequest { device, size, usage }).bytes(),
        ),
{
    let mut body: Vec<u8> = Vec::new();
    (wgpu::CreateBufferRequest { device, size, usage }).encode(&mut body);
    proto::frame::plain_frame(
        proto::FrameKind::Request,
        wgpu_op::CREATE_BUFFER,
        req_id,
        seq,
        &body,
    )
}

/// What [`wgpu_op::CREATE_BUFFER`] yields on receiving `reply`.
pub open spec fn create_buffer_result(reply: Seq<u8>) -> Result<Handle, ClientError> {
    match super::reply_body(reply, wgpu_op::CREATE_BUFFER) {
        Err(e) => Err(e),
        Ok(body) => match wgpu::CreateBufferResponse::parse(body) {
            Err(e) => Err(ClientError::Protocol(e)),
            Ok(resp) => super::handle_of_kind(resp.buffer, KIND_WGPU_BUFFER),
        },
    }
}

/// Read the reply to [`wgpu_op::CREATE_BUFFER`]: validate its opcode and kind,
/// decode the handle, and verify that it names an object of the right kind.
pub fn create_buffer_reply(reply: &[u8]) -> (r: Result<Handle, ClientError>)
    ensures
        r == create_buffer_result(reply@),
{
    let body: &[u8] = super::accept_reply(reply, wgpu_op::CREATE_BUFFER)?;
    match wgpu::CreateBufferResponse::decode(body) {
        Err(e) => Err(ClientError::Protocol(e)),
        Ok(resp) => super::check_kind(resp.buffer, KIND_WGPU_BUFFER),
    }
}

/// The request for [`wgpu_op::CREATE_BUFFER`] reaches a server as it was made,
/// and what the server answers is what the caller gets.
pub proof fn law_create_buffer_exchange(
    device: Handle,
    size: u64,
    usage: u32,
    answer: Handle,
    req_id: u32,
    seq: u64,
    reply_seq: u64,
)
    requires
        answer.spec_kind() == KIND_WGPU_BUFFER,
    ensures
        crate::server::session::screen(
            proto::frame::request_bytes(
                wgpu_op::CREATE_BUFFER,
                req_id,
                seq,
                (wgpu::CreateBufferRequest { device, size, usage }).bytes(),
            ),
            proto::DEFAULT_MAX_FRAME_BODY,
        ) matches Ok((h, body)) && h.opcode == wgpu_op::CREATE_BUFFER && h.req_id == req_id
            && wgpu::CreateBufferRequest::parse(body) == Ok::<
            wgpu::CreateBufferRequest,
            proto::ProtocolError,
        >(
            wgpu::CreateBufferRequest { device, size, usage },
        ),
        create_buffer_result(
            proto::frame::reply_bytes(
                wgpu_op::CREATE_BUFFER,
                req_id,
                reply_seq,
                (wgpu::CreateBufferResponse { buffer: answer }).bytes(),
            ),
        ) == Ok::<Handle, ClientError>(answer),
{
    broadcast use crate::protocol::bytes::group_le_len;

    let req = wgpu::CreateBufferRequest { device, size, usage };
    super::law_request_passes(
        wgpu_op::CREATE_BUFFER,
        req_id,
        seq,
        req.bytes(),
        proto::DEFAULT_MAX_FRAME_BODY,
    );
    req.law_whole();
    let resp = wgpu::CreateBufferResponse { buffer: answer };
    super::law_reply_accepted(wgpu_op::CREATE_BUFFER, req_id, reply_seq, resp.bytes());
    resp.law_whole();
}

/// The request frame of [`wgpu_op::DESTROY_BUFFER`], with which to issue a
/// `destroy` call for `buffer`.
pub fn destroy_buffer_request(buffer: Handle, req_id: u32, seq: u64) -> (frame: Vec<u8>)
    ensures
        frame@ == proto::frame::request_bytes(
            wgpu_op::DESTROY_BUFFER,
            req_id,
            seq,
            (wgpu::DestroyBufferRequest { buffer }).bytes(),
        ),
{
    let mut body: Vec<u8> = Vec::new();
    (wgpu::DestroyBufferRequest { buffer }).encode(&mut body);
    proto::frame::plain_frame(
        proto::FrameKind::Request,
        wgpu_op::DESTROY_BUFFER,
        req_id,
        seq,
        &body,
    )
}

/// What [`wgpu_op::DESTROY_BUFFER`] yields on receiving `reply`.
pub open spec fn destroy_buffer_result(reply: Seq<u8>) -> Result<(), ClientError> {
    match super::reply_body(reply, wgpu_op::DESTROY_BUFFER) {
        Err(e) => Err(e),
        Ok(_) => Ok(()),
    }
}

/// Read the reply to [`wgpu_op::DESTROY_BUFFER`]: validate its opcode and
/// kind. The reply body is an empty acknowledgement, so nothing is decoded.
pub fn destroy_buffer_reply(reply: &[u8]) -> (r: Result<(), ClientError>)
    ensures
        r == destroy_buffer_result(reply@),
{
    let _body: &[u8] = super::accept_reply(reply, wgpu_op::DESTROY_BUFFER)?;
    Ok(())
}

/// The request for [`wgpu_op::DESTROY_BUFFER`] reaches a server as it was
/// made, and what the server answers is what the caller gets.
pub proof fn law_destroy_buffer_exchange(
    buffer: Handle,
    req_id: u32,
    seq: u64,
    reply_seq: u64,
)
    ensures
        crate::server::session::screen(
            proto::frame::request_bytes(
                wgpu_op::DESTROY_BUFFER,
                req_id,
                seq,
                (wgpu::DestroyBufferRequest { buffer }).bytes(),
            ),
            proto::DEFAULT_MAX_FRAME_BODY,
        ) matches Ok((h, body)) && h.opcode == wgpu_op::DESTROY_BUFFER && h.req_id == req_id
            && wgpu::DestroyBufferRequest::parse(body) == Ok::<
            wgpu::DestroyBufferRequest,
            proto::ProtocolError,
        >(
            wgpu::DestroyBufferRequest { buffer },
        ),
        destroy_buffer_result(
            proto::frame::reply_bytes(
                wgpu_op::DESTROY_BUFFER,
                req_id,
                reply_seq,
                seq![],
            ),
        ) == Ok::<(), ClientError>(()),
{
    broadcast use crate::protocol::bytes::group_le_len;

    let req = wgpu::DestroyBufferRequest { buffer };
    super::law_request_passes(
        wgpu_op::DESTROY_BUFFER,
        req_id,
        seq,
        req.bytes(),
        proto::DEFAULT_MAX_FRAME_BODY,
    );
    req.law_whole();
    super::law_reply_accepted(wgpu_op::DESTROY_BUFFER, req_id, reply_seq, seq![]);
}

/// The reply to [`wgpu_op::REQUEST_DEVICE`] is read by its opcode, its kind and its
/// body alone. A response under that opcode yields the handle it carries if that is
/// of the right kind, and is refused by the kind if not; where the body is too
/// short for a handle it is refused as an unexpected end. Any other frame is
/// refused as unexpected, and what is no frame for the reason that it is none.
pub proof fn law_request_device_reply(
    h: proto::FrameHeader,
    answer: Handle,
    rest: Seq<u8>,
    body: Seq<u8>,
    garbled: Seq<u8>,
)
    ensures
        h.opcode == wgpu_op::REQUEST_DEVICE && h.kind == proto::FrameKind::Response ==> {
            &&& request_device_result(
                proto::frame::frame_bytes(
                    h,
                    (wgpu::RequestDeviceResponse { device: answer }).bytes() + rest,
                ),
            ) == if answer.spec_kind() == KIND_WGPU_DEVICE {
                Ok::<Handle, ClientError>(answer)
            } else {
                Err::<Handle, ClientError>(
                    ClientError::Protocol(
                        proto::ProtocolError::BadKind(answer.spec_kind() as u16),
                    ),
                )
            }
            &&& body.len() < 8
                ==> request_device_result(proto::frame::frame_bytes(h, body)) == Err::<
                Handle,
                ClientError,
            >(ClientError::Protocol(proto::ProtocolError::UnexpectedEof))
        },
        h.opcode != wgpu_op::REQUEST_DEVICE || h.kind != proto::FrameKind::Response
            ==> request_device_result(
            proto::frame::frame_bytes(h, body),
        ) == Err::<Handle, ClientError>(
            ClientError::UnexpectedReply { opcode: h.opcode, kind: h.kind },
        ),
        proto::frame::parse_frame(garbled) matches Err(e)
            ==> request_device_result(garbled) == Err::<
            Handle,
            ClientError,
        >(ClientError::Protocol(e)),
{
    let resp = wgpu::RequestDeviceResponse { device: answer };
    resp.law_round_trip(rest);
    proto::frame::law_frame_round_trip(h, resp.bytes() + rest);
    proto::frame::law_frame_round_trip(h, body);
}

/// The reply to [`wgpu_op::CREATE_BUFFER`] is read by its opcode, its kind and its
/// body alone. A response under that opcode yields the handle it carries if that is
/// of the right kind, and is refused by the kind if not; where the body is too
/// short for a handle it is refused as an unexpected end. Any other frame is
/// refused as unexpected, and what is no frame for the reason that it is none.
pub proof fn law_create_buffer_reply(
    h: proto::FrameHeader,
    answer: Handle,
    rest: Seq<u8>,
    body: Seq<u8>,
    garbled: Seq<u8>,
)
    ensures
        h.opcode == wgpu_op::CREATE_BUFFER && h.kind == proto::FrameKind::Response ==> {
            &&& create_buffer_result(
                proto::frame::frame_bytes(
                    h,
                    (wgpu::CreateBufferResponse { buffer: answer }).bytes() + rest,
                ),
            ) == if answer.spec_kind() == KIND_WGPU_BUFFER {
                Ok::<Handle, ClientError>(answer)
            } else {
                Err::<Handle, ClientError>(
                    ClientError::Protocol(
                        proto::ProtocolError::BadKind(answer.spec_kind() as u16),
                    ),
                )
            }
            &&& body.len() < 8
                ==> create_buffer_result(proto::frame::frame_bytes(h, body)) == Err::<
                Handle,
                ClientError,
            >(ClientError::Protocol(proto::ProtocolError::UnexpectedEof))
        },
        h.opcode != wgpu_op::CREATE_BUFFER || h.kind != proto::FrameKind::Response
            ==> create_buffer_result(
            proto::frame::frame_bytes(h, body),
        ) == Err::<Handle, ClientError>(
            ClientError::UnexpectedReply { opcode: h.opcode, kind: h.kind },
        ),
        proto::frame::parse_frame(garbled) matches Err(e)
            ==> create_buffer_result(garbled) == Err::<
            Handle,
            ClientError,
        >(ClientError::Protocol(e)),
{
    let resp = wgpu::CreateBufferResponse { buffer: answer };
    resp.law_round_trip(rest);
    proto::frame::law_frame_round_trip(h, resp.bytes() + rest);
    proto::frame::law_frame_round_trip(h, body);
}

/// The reply to [`wgpu_op::DESTROY_BUFFER`] is read by its opcode and its kind
/// alone: a response under that opcode is an acknowledgement. Any other frame is
/// refused as unexpected, and what is no frame for the reason that it is none.
pub proof fn law_destroy_buffer_reply(
    h: proto::FrameHeader,
    body: Seq<u8>,
    garbled: Seq<u8>,
)
    ensures
        h.opcode == wgpu_op::DESTROY_BUFFER && h.kind == proto::FrameKind::Response ==> {
            destroy_buffer_result(proto::frame::frame_bytes(h, body)) == Ok::<(), ClientError>(())
        },
        h.opcode != wgpu_op::DESTROY_BUFFER || h.kind != proto::FrameKind::Response
            ==> destroy_buffer_result(
            proto::frame::frame_bytes(h, body),
        ) == Err::<(), ClientError>(
            ClientError::UnexpectedReply { opcode: h.opcode, kind: h.kind },
        ),
        proto::frame::parse_frame(garbled) matches Err(e)
            ==> destroy_buffer_result(garbled) == Err::<
            (),
            ClientError,
        >(ClientError::Protocol(e)),
{
    proto::frame::law_frame_round_trip(h, body);
}

/// The request frame of [`wgpu_op::REQUEST_DEVICE`] carries what it was asked for:
/// a request under that opcode, the given request id and sequence number, and a
/// body of nothing.
pub proof fn law_request_device_request(
    req_id: u32,
    seq: u64,
    frame: Vec<u8>,
)
    requires
        call_ensures(request_device_request, (req_id, seq), frame),
    ensures
        proto::frame::parse_frame(frame@) matches Ok((h, body)) && {
            &&& h.kind == proto::FrameKind::Request
            &&& h.opcode == 0x0800_0001
            &&& h.req_id == req_id
            &&& h.seq == seq
            &&& h.body_len == 0
            &&& body.len() == 0
        },
{
    proto::frame::law_made_frames(wgpu_op::REQUEST_DEVICE, req_id, seq, seq![]);
}

/// The request frame of [`wgpu_op::CREATE_BUFFER`] carries what it was asked for: a
/// request under that opcode, the given request id and sequence number, and a body
/// of nothing but the arguments, in order.
pub proof fn law_create_buffer_request(
    device: Handle,
    size: u64,
    usage: u32,
    req_id: u32,
    seq: u64,
    frame: Vec<u8>,
)
    requires
        call_ensures(create_buffer_request, (device, size, usage, req_id, seq), frame),
    ensures
        proto::frame::parse_frame(frame@) matches Ok((h, body)) && {
            &&& h.kind == proto::FrameKind::Request
            &&& h.opcode == 0x0800_0002
            &&& h.req_id == req_id
            &&& h.seq == seq
            &&& h.body_len == 20
            &&& body.len() == 20
            &&& proto::bytes::u64_at(body, 0) == device@
            &&& proto::bytes::u64_at(body, 8) == size
            &&& proto::bytes::u32_at(body, 16) == usage
        },
{
    let req = wgpu::CreateBufferRequest { device, size, usage };
    wgpu::law_create_buffer_request_layout(req);
    proto::frame::law_made_frames(wgpu_op::CREATE_BUFFER, req_id, seq, req.bytes());
}

/// The request frame of [`wgpu_op::DESTROY_BUFFER`] carries what it was asked for:
/// a request under that opcode, the given request id and sequence number, and a
/// body of nothing but the arguments, in order.
pub proof fn law_destroy_buffer_request(
    buffer: Handle,
    req_id: u32,
    seq: u64,
    frame: Vec<u8>,
)
    requires
        call_ensures(destroy_buffer_request, (buffer, req_id, seq), frame),
    ensures
        proto::frame::parse_frame(frame@) matches Ok((h, body)) && {
            &&& h.kind == proto::FrameKind::Request
            &&& h.opcode == 0x0800_0003
            &&& h.req_id == req_id
            &&& h.seq == seq
            &&& h.body_len == 8
            &&& body.len() == 8
            &&& proto::bytes::u64_at(body, 0) == buffer@
        },
{
    let req = wgpu::DestroyBufferRequest { buffer };
    wgpu::law_destroy_buffer_request_layout(req);
    proto::frame::law_made_frames(wgpu_op::DESTROY_BUFFER, req_id, seq, req.bytes());
}

} // verus!
