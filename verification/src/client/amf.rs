//! AMF video-encode client shim.
//!
//! Builds the request frames of the AMF video-encode entrypoints and reads the
//! frames that the server's AMF video-encode backend replies with. Pure Rust:
//! no driver, no GPU.
use vstd::prelude::*;

use super::ClientError;
use crate::protocol as proto;
use crate::protocol::amf;
use crate::protocol::amf_op;
use crate::protocol::wire::Wire;
use crate::protocol::Handle;

verus! {

broadcast use crate::protocol::bytes::lemma_append_to_empty;

/// Server object kind for an AMF encoder handle.
pub const KIND_AMF_ENCODER: u8 = 100;

/// The request frame of [`amf_op::CREATE_ENCODER`], with which to create an
/// AMF encoder for `codec` at `width`x`height`.
pub fn create_encoder_request(
    codec: u32,
    width: u32,
    height: u32,
    req_id: u32,
    seq: u64,
) -> (frame: Vec<u8>)
    ensures
        frame@ == proto::frame::request_bytes(
            amf_op::CREATE_ENCODER,
            req_id,
            seq,
            (amf::CreateEncoderRequest { codec, width, height }).bytes(),
        ),
{
    let mut body: Vec<u8> = Vec::new();
    (amf::CreateEncoderRequest { codec, width, height }).encode(&mut body);
    proto::frame::plain_frame(
        proto::FrameKind::Request,
        amf_op::CREATE_ENCODER,
        req_id,
        seq,
        &body,
    )
}

/// What [`amf_op::CREATE_ENCODER`] yields on receiving `reply`.
pub open spec fn create_encoder_result(reply: Seq<u8>) -> Result<Handle, ClientError> {
    match super::reply_body(reply, amf_op::CREATE_ENCODER) {
        Err(e) => Err(e),
        Ok(body) => match amf::CreateEncoderResponse::parse(body) {
            Err(e) => Err(ClientError::Protocol(e)),
            Ok(resp) => super::handle_of_kind(resp.encoder, KIND_AMF_ENCODER),
        },
    }
}

/// Read the reply to [`amf_op::CREATE_ENCODER`]: validate its opcode and kind,
/// decode the handle, and verify that it names an object of the right kind.
pub fn create_encoder_reply(reply: &[u8]) -> (r: Result<Handle, ClientError>)
    ensures
        r == create_encoder_result(reply@),
{
    let body: &[u8] = super::accept_reply(reply, amf_op::CREATE_ENCODER)?;
    match amf::CreateEncoderResponse::decode(body) {
        Err(e) => Err(ClientError::Protocol(e)),
        Ok(resp) => super::check_kind(resp.encoder, KIND_AMF_ENCODER),
    }
}

/// The request for [`amf_op::CREATE_ENCODER`] reaches a server as it was made,
/// and what the server answers is what the caller gets.
pub proof fn law_create_encoder_exchange(
    codec: u32,
    width: u32,
    height: u32,
    answer: Handle,
    req_id: u32,
    seq: u64,
    reply_seq: u64,
)
    requires
        answer.spec_kind() == KIND_AMF_ENCODER,
    ensures
        crate::server::session::screen(
            proto::frame::request_bytes(
                amf_op::CREATE_ENCODER,
                req_id,
                seq,
                (amf::CreateEncoderRequest { codec, width, height }).bytes(),
            ),
            proto::DEFAULT_MAX_FRAME_BODY,
        ) matches Ok((h, body)) && h.opcode == amf_op::CREATE_ENCODER && h.req_id == req_id
            && amf::CreateEncoderRequest::parse(body) == Ok::<
            amf::CreateEncoderRequest,
            proto::ProtocolError,
        >(
            amf::CreateEncoderRequest { codec, width, height },
        ),
        create_encoder_result(
            proto::frame::reply_bytes(
                amf_op::CREATE_ENCODER,
                req_id,
                reply_seq,
                (amf::CreateEncoderResponse { encoder: answer }).bytes(),
            ),
        ) == Ok::<Handle, ClientError>(answer),
{
    broadcast use crate::protocol::bytes::group_le_len;

    let req = amf::CreateEncoderRequest { codec, width, height };
    super::law_request_passes(
        amf_op::CREATE_ENCODER,
        req_id,
        seq,
        req.bytes(),
        proto::DEFAULT_MAX_FRAME_BODY,
    );
    req.law_whole();
    let resp = amf::CreateEncoderResponse { encoder: answer };
    super::law_reply_accepted(amf_op::CREATE_ENCODER, req_id, reply_seq, resp.bytes());
    resp.law_whole();
}

/// The request frame of [`amf_op::ENCODE_FRAME`], with which to submit a
/// `frame_len`-byte raw frame to `encoder` for encoding.
pub fn encode_frame_request(
    encoder: Handle,
    frame_len: u32,
    req_id: u32,
    seq: u64,
) -> (frame: Vec<u8>)
    ensures
        frame@ == proto::frame::request_bytes(
            amf_op::ENCODE_FRAME,
            req_id,
            seq,
            (amf::EncodeFrameRequest { encoder, frame_len }).bytes(),
        ),
{
    let mut body: Vec<u8> = Vec::new();
    (amf::EncodeFrameRequest { encoder, frame_len }).encode(&mut body);
    proto::frame::plain_frame(proto::FrameKind::Request, amf_op::ENCODE_FRAME, req_id, seq, &body)
}

/// What [`amf_op::ENCODE_FRAME`] yields on receiving `reply`.
pub open spec fn encode_frame_result(reply: Seq<u8>) -> Result<u32, ClientError> {
    match super::reply_body(reply, amf_op::ENCODE_FRAME) {
        Err(e) => Err(e),
        Ok(body) => match amf::EncodeFrameResponse::parse(body) {
            Err(e) => Err(ClientError::Protocol(e)),
            Ok(resp) => Ok(resp.packet_len),
        },
    }
}

/// Read the reply to [`amf_op::ENCODE_FRAME`]: validate its opcode and kind,
/// and decode the body.
pub fn encode_frame_reply(reply: &[u8]) -> (r: Result<u32, ClientError>)
    ensures
        r == encode_frame_result(reply@),
{
    let body: &[u8] = super::accept_reply(reply, amf_op::ENCODE_FRAME)?;
    match amf::EncodeFrameResponse::decode(body) {
        Err(e) => Err(ClientError::Protocol(e)),
        Ok(resp) => Ok(resp.packet_len),
    }
}

/// The request for [`amf_op::ENCODE_FRAME`] reaches a server as it was made,
/// and what the server answers is what the caller gets.
pub proof fn law_encode_frame_exchange(
    encoder: Handle,
    frame_len: u32,
    answer: u32,
    req_id: u32,
    seq: u64,
    reply_seq: u64,
)
    ensures
        crate::server::session::screen(
            proto::frame::request_bytes(
                amf_op::ENCODE_FRAME,
                req_id,
                seq,
                (amf::EncodeFrameRequest { encoder, frame_len }).bytes(),
            ),
            proto::DEFAULT_MAX_FRAME_BODY,
        ) matches Ok((h, body)) && h.opcode == amf_op::ENCODE_FRAME && h.req_id == req_id
            && amf::EncodeFrameRequest::parse(body) == Ok::<
            amf::EncodeFrameRequest,
            proto::ProtocolError,
        >(
            amf::EncodeFrameRequest { encoder, frame_len },
        ),
        encode_frame_result(
            proto::frame::reply_bytes(
                amf_op::ENCODE_FRAME,
                req_id,
                reply_seq,
                (amf::EncodeFrameResponse { packet_len: answer }).bytes(),
            ),
        ) == Ok::<u32, ClientError>(answer),
{
    broadcast use crate::protocol::bytes::group_le_len;

    let req = amf::EncodeFrameRequest { encoder, frame_len };
    super::law_request_passes(
        amf_op::ENCODE_FRAME,
        req_id,
        seq,
        req.bytes(),
        proto::DEFAULT_MAX_FRAME_BODY,
    );
    req.law_whole();
    let resp = amf::EncodeFrameResponse { packet_len: answer };
    super::law_reply_accepted(amf_op::ENCODE_FRAME, req_id, reply_seq, resp.bytes());
    resp.law_whole();
}

/// The request frame of [`amf_op::DESTROY_ENCODER`], with which to destroy the
/// `encoder`.
pub fn destroy_encoder_request(encoder: Handle, req_id: u32, seq: u64) -> (frame: Vec<u8>)
    ensures
        frame@ == proto::frame::request_bytes(
            amf_op::DESTROY_ENCODER,
            req_id,
            seq,
            (amf::DestroyEncoderRequest { encoder }).bytes(),
        ),
{
    let mut body: Vec<u8> = Vec::new();
    (amf::DestroyEncoderRequest { encoder }).encode(&mut body);
    proto::frame::plain_frame(
        proto::FrameKind::Request,
        amf_op::DESTROY_ENCODER,
        req_id,
        seq,
        &body,
    )
}

/// What [`amf_op::DESTROY_ENCODER`] yields on receiving `reply`.
pub open spec fn destroy_encoder_result(reply: Seq<u8>) -> Result<(), ClientError> {
    match super::reply_body(reply, amf_op::DESTROY_ENCODER) {
        Err(e) => Err(e),
        Ok(_) => Ok(()),
    }
}

/// Read the reply to [`amf_op::DESTROY_ENCODER`]: validate its opcode and
/// kind. The reply body is an empty acknowledgement, so nothing is decoded.
pub fn destroy_encoder_reply(reply: &[u8]) -> (r: Result<(), ClientError>)
    ensures
        r == destroy_encoder_result(reply@),
{
    let _body: &[u8] = super::accept_reply(reply, amf_op::DESTROY_ENCODER)?;
    Ok(())
}

/// The request for [`amf_op::DESTROY_ENCODER`] reaches a server as it was
/// made, and what the server answers is what the caller gets.
pub proof fn law_destroy_encoder_exchange(
    encoder: Handle,
    req_id: u32,
    seq: u64,
    reply_seq: u64,
)
    ensures
        crate::server::session::screen(
            proto::frame::request_bytes(
                amf_op::DESTROY_ENCODER,
                req_id,
                seq,
                (amf::DestroyEncoderRequest { encoder }).bytes(),
            ),
            proto::DEFAULT_MAX_FRAME_BODY,
        ) matches Ok((h, body)) && h.opcode == amf_op::DESTROY_ENCODER && h.req_id == req_id
            && amf::DestroyEncoderRequest::parse(body) == Ok::<
            amf::DestroyEncoderRequest,
            proto::ProtocolError,
        >(
            amf::DestroyEncoderRequest { encoder },
        ),
        destroy_encoder_result(
            proto::frame::reply_bytes(
                amf_op::DESTROY_ENCODER,
                req_id,
                reply_seq,
                seq![],
            ),
        ) == Ok::<(), ClientError>(()),
{
    broadcast use crate::protocol::bytes::group_le_len;

    let req = amf::DestroyEncoderRequest { encoder };
    super::law_request_passes(
        amf_op::DESTROY_ENCODER,
        req_id,
        seq,
        req.bytes(),
        proto::DEFAULT_MAX_FRAME_BODY,
    );
    req.law_whole();
    super::law_reply_accepted(amf_op::DESTROY_ENCODER, req_id, reply_seq, seq![]);
}

/// The reply to [`amf_op::CREATE_ENCODER`] is read by its opcode, its kind and its
/// body alone. A response under that opcode yields the handle it carries if that is
/// of the right kind, and is refused by the kind if not; where the body is too
/// short for a handle it is refused as an unexpected end. Any other frame is
/// refused as unexpected, and what is no frame for the reason that it is none.
pub proof fn law_create_encoder_reply(
    h: proto::FrameHeader,
    answer: Handle,
    rest: Seq<u8>,
    body: Seq<u8>,
    garbled: Seq<u8>,
)
    ensures
        h.opcode == amf_op::CREATE_ENCODER && h.kind == proto::FrameKind::Response ==> {
            &&& create_encoder_result(
                proto::frame::frame_bytes(
                    h,
                    (amf::CreateEncoderResponse { encoder: answer }).bytes() + rest,
                ),
            ) == if answer.spec_kind() == KIND_AMF_ENCODER {
                Ok::<Handle, ClientError>(answer)
            } else {
                Err::<Handle, ClientError>(
                    ClientError::Protocol(
                        proto::ProtocolError::BadKind(answer.spec_kind() as u16),
                    ),
                )
            }
            &&& body.len() < 8
                ==> create_encoder_result(proto::frame::frame_bytes(h, body)) == Err::<
                Handle,
                ClientError,
            >(ClientError::Protocol(proto::ProtocolError::UnexpectedEof))
        },
        h.opcode != amf_op::CREATE_ENCODER || h.kind != proto::FrameKind::Response
            ==> create_encoder_result(
            proto::frame::frame_bytes(h, body),
        ) == Err::<Handle, ClientError>(
            ClientError::UnexpectedReply { opcode: h.opcode, kind: h.kind },
        ),
        proto::frame::parse_frame(garbled) matches Err(e)
            ==> create_encoder_result(garbled) == Err::<
            Handle,
            ClientError,
        >(ClientError::Protocol(e)),
{
    let resp = amf::CreateEncoderResponse { encoder: answer };
    resp.law_round_trip(rest);
    proto::frame::law_frame_round_trip(h, resp.bytes() + rest);
    proto::frame::law_frame_round_trip(h, body);
}

/// The reply to [`amf_op::ENCODE_FRAME`] is read by its opcode, its kind and its
/// body alone. A response under that opcode yields the number it carries; where the
/// body is too short for it, it is refused as an unexpected end. Any other frame is
/// refused as unexpected, and what is no frame for the reason that it is none.
pub proof fn law_encode_frame_reply(
    h: proto::FrameHeader,
    answer: u32,
    rest: Seq<u8>,
    body: Seq<u8>,
    garbled: Seq<u8>,
)
    ensures
        h.opcode == amf_op::ENCODE_FRAME && h.kind == proto::FrameKind::Response ==> {
            &&& encode_frame_result(
                proto::frame::frame_bytes(
                    h,
                    (amf::EncodeFrameResponse { packet_len: answer }).bytes() + rest,
                ),
            ) == Ok::<u32, ClientError>(answer)
            &&& body.len() < 4 ==> encode_frame_result(proto::frame::frame_bytes(h, body)) == Err::<
                u32,
                ClientError,
            >(ClientError::Protocol(proto::ProtocolError::UnexpectedEof))
        },
        h.opcode != amf_op::ENCODE_FRAME || h.kind != proto::FrameKind::Response
            ==> encode_frame_result(
            proto::frame::frame_bytes(h, body),
        ) == Err::<u32, ClientError>(
            ClientError::UnexpectedReply { opcode: h.opcode, kind: h.kind },
        ),
        proto::frame::parse_frame(garbled) matches Err(e) ==> encode_frame_result(garbled) == Err::<
            u32,
            ClientError,
        >(ClientError::Protocol(e)),
{
    let resp = amf::EncodeFrameResponse { packet_len: answer };
    resp.law_round_trip(rest);
    proto::frame::law_frame_round_trip(h, resp.bytes() + rest);
    proto::frame::law_frame_round_trip(h, body);
}

/// The reply to [`amf_op::DESTROY_ENCODER`] is read by its opcode and its kind
/// alone: a response under that opcode is an acknowledgement. Any other frame is
/// refused as unexpected, and what is no frame for the reason that it is none.
pub proof fn law_destroy_encoder_reply(
    h: proto::FrameHeader,
    body: Seq<u8>,
    garbled: Seq<u8>,
)
    ensures
        h.opcode == amf_op::DESTROY_ENCODER && h.kind == proto::FrameKind::Response ==> {
            destroy_encoder_result(proto::frame::frame_bytes(h, body)) == Ok::<(), ClientError>(())
        },
        h.opcode != amf_op::DESTROY_ENCODER || h.kind != proto::FrameKind::Response
            ==> destroy_encoder_result(
            proto::frame::frame_bytes(h, body),
        ) == Err::<(), ClientError>(
            ClientError::UnexpectedReply { opcode: h.opcode, kind: h.kind },
        ),
        proto::frame::parse_frame(garbled) matches Err(e)
            ==> destroy_encoder_result(garbled) == Err::<
            (),
            ClientError,
        >(ClientError::Protocol(e)),
{
    proto::frame::law_frame_round_trip(h, body);
}

/// The request frame of [`amf_op::CREATE_ENCODER`] carries what it was asked for: a
/// request under that opcode, the given request id and sequence number, and a body
/// of nothing but the arguments, in order.
pub proof fn law_create_encoder_request(
    codec: u32,
    width: u32,
    height: u32,
    req_id: u32,
    seq: u64,
    frame: Vec<u8>,
)
    requires
        call_ensures(create_encoder_request, (codec, width, height, req_id, seq), frame),
    ensures
        proto::frame::parse_frame(frame@) matches Ok((h, body)) && {
            &&& h.kind == proto::FrameKind::Request
            &&& h.opcode == 0x0B00_0001
            &&& h.req_id == req_id
            &&& h.seq == seq
            &&& h.body_len == 12
            &&& body.len() == 12
            &&& proto::bytes::u32_at(body, 0) == codec
            &&& proto::bytes::u32_at(body, 4) == width
            &&& proto::bytes::u32_at(body, 8) == height
        },
{
    let req = amf::CreateEncoderRequest { codec, width, height };
    amf::law_create_encoder_request_layout(req);
    proto::frame::law_made_frames(amf_op::CREATE_ENCODER, req_id, seq, req.bytes());
}

/// The request frame of [`amf_op::ENCODE_FRAME`] carries what it was asked for: a
/// request under that opcode, the given request id and sequence number, and a body
/// of nothing but the arguments, in order.
pub proof fn law_encode_frame_request(
    encoder: Handle,
    frame_len: u32,
    req_id: u32,
    seq: u64,
    frame: Vec<u8>,
)
    requires
        call_ensures(encode_frame_request, (encoder, frame_len, req_id, seq), frame),
    ensures
        proto::frame::parse_frame(frame@) matches Ok((h, body)) && {
            &&& h.kind == proto::FrameKind::Request
            &&& h.opcode == 0x0B00_0002
            &&& h.req_id == req_id
            &&& h.seq == seq
            &&& h.body_len == 12
            &&& body.len() == 12
            &&& proto::bytes::u64_at(body, 0) == encoder@
            &&& proto::bytes::u32_at(body, 8) == frame_len
        },
{
    let req = amf::EncodeFrameRequest { encoder, frame_len };
    amf::law_encode_frame_request_layout(req);
    proto::frame::law_made_frames(amf_op::ENCODE_FRAME, req_id, seq, req.bytes());
}

/// The request frame of [`amf_op::DESTROY_ENCODER`] carries what it was asked for:
/// a request under that opcode, the given request id and sequence number, and a
/// body of nothing but the arguments, in order.
pub proof fn law_destroy_encoder_request(
    encoder: Handle,
    req_id: u32,
    seq: u64,
    frame: Vec<u8>,
)
    requires
        call_ensures(destroy_encoder_request, (encoder, req_id, seq), frame),
    ensures
        proto::frame::parse_frame(frame@) matches Ok((h, body)) && {
            &&& h.kind == proto::FrameKind::Request
            &&& h.opcode == 0x0B00_0003
            &&& h.req_id == req_id
            &&& h.seq == seq
            &&& h.body_len == 8
            &&& body.len() == 8
            &&& proto::bytes::u64_at(body, 0) == encoder@
        },
{
    let req = amf::DestroyEncoderRequest { encoder };
    amf::law_destroy_encoder_request_layout(req);
    proto::frame::law_made_frames(amf_op::DESTROY_ENCODER, req_id, seq, req.bytes());
}

} // verus!
