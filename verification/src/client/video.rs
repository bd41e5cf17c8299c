//! Video decode client shim.
//!
//! Builds the request frames of the Video decode entrypoints and reads the
//! frames that the server's Video decode backend replies with. Pure Rust: no
//! driver, no GPU.
use vstd::prelude::*;

use super::ClientError;
use crate::protocol as proto;
use crate::protocol::video;
use crate::protocol::video_op;
use crate::protocol::wire::Wire;
use crate::protocol::Handle;

verus! {

broadcast use crate::protocol::bytes::lemma_append_to_empty;

/// Server object kind for a video decode-session handle.
pub const KIND_VIDEO_SESSION: u8 = 60;

/// The request frame of [`video_op::CREATE_DECODE_SESSION`], with which to
/// create a decode session for `codec` at `width`x`height`.
pub fn create_decode_session_request(
    codec: u32,
    width: u32,
    height: u32,
    req_id: u32,
    seq: u64,
) -> (frame: Vec<u8>)
    ensures
        frame@ == proto::frame::request_bytes(
            video_op::CREATE_DECODE_SESSION,
            req_id,
            seq,
            (video::CreateDecodeSessionRequest { codec, width, height }).bytes(),
        ),
{
    let mut body: Vec<u8> = Vec::new();
    (video::CreateDecodeSessionRequest { codec, width, height }).encode(&mut body);
    proto::frame::plain_frame(
        proto::FrameKind::Request,
        video_op::CREATE_DECODE_SESSION,
        req_id,
        seq,
        &body,
    )
}

/// What [`video_op::CREATE_DECODE_SESSION`] yields on receiving `reply`.
pub open spec fn create_decode_session_result(reply: Seq<u8>) -> Result<Handle, ClientError> {
    match super::reply_body(reply, video_op::CREATE_DECODE_SESSION) {
        Err(e) => Err(e),
        Ok(body) => match video::CreateDecodeSessionResponse::parse(body) {
            Err(e) => Err(ClientError::Protocol(e)),
            Ok(resp) => super::handle_of_kind(resp.session, KIND_VIDEO_SESSION),
        },
    }
}

/// Read the reply to [`video_op::CREATE_DECODE_SESSION`]: validate its opcode
/// and kind, decode the handle, and verify that it names an object of the
/// right kind.
pub fn create_decode_session_reply(reply: &[u8]) -> (r: Result<Handle, ClientError>)
    ensures
        r == create_decode_session_result(reply@),
{
    let body: &[u8] = super::accept_reply(reply, video_op::CREATE_DECODE_SESSION)?;
    match video::CreateDecodeSessionResponse::decode(body) {
        Err(e) => Err(ClientError::Protocol(e)),
        Ok(resp) => super::check_kind(resp.session, KIND_VIDEO_SESSION),
    }
}

/// The request for [`video_op::CREATE_DECODE_SESSION`] reaches a server as it
/// was made, and what the server answers is what the caller gets.
pub proof fn law_create_decode_session_exchange(
    codec: u32,
    width: u32,
    height: u32,
    answer: Handle,
    req_id: u32,
    seq: u64,
    reply_seq: u64,
)
    requires
        answer.spec_kind() == KIND_VIDEO_SESSION,
    ensures
        crate::server::session::screen(
            proto::frame::request_bytes(
                video_op::CREATE_DECODE_SESSION,
                req_id,
                seq,
                (video::CreateDecodeSessionRequest { codec, width, height }).bytes(),
            ),
            proto::DEFAULT_MAX_FRAME_BODY,
        ) matches Ok((h, body)) && h.opcode == video_op::CREATE_DECODE_SESSION && h.req_id == req_id
            && video::CreateDecodeSessionRequest::parse(body) == Ok::<
            video::CreateDecodeSessionRequest,
            proto::ProtocolError,
        >(
            video::CreateDecodeSessionRequest { codec, width, height },
        ),
        create_decode_session_result(
            proto::frame::reply_bytes(
                video_op::CREATE_DECODE_SESSION,
                req_id,
                reply_seq,
                (video::CreateDecodeSessionResponse { session: answer }).bytes(),
            ),
        ) == Ok::<Handle, ClientError>(answer),
{
    broadcast use crate::protocol::bytes::group_le_len;

    let req = video::CreateDecodeSessionRequest { codec, width, height };
    super::law_request_passes(
        video_op::CREATE_DECODE_SESSION,
        req_id,
        seq,
        req.bytes(),
        proto::DEFAULT_MAX_FRAME_BODY,
    );
    req.law_whole();
    let resp = video::CreateDecodeSessionResponse { session: answer };
    super::law_reply_accepted(video_op::CREATE_DECODE_SESSION, req_id, reply_seq, resp.bytes());
    resp.law_whole();
}

/// The request frame of [`video_op::DECODE_FRAME`], with which to submit a
/// `bitstream_len`-byte coded bitstream to `session` and have one frame
/// decoded.
pub fn decode_frame_request(
    session: Handle,
    bitstream_len: u32,
    req_id: u32,
    seq: u64,
) -> (frame: Vec<u8>)
    ensures
        frame@ == proto::frame::request_bytes(
            video_op::DECODE_FRAME,
            req_id,
            seq,
            (video::DecodeFrameRequest { session, bitstream_len }).bytes(),
        ),
{
    let mut body: Vec<u8> = Vec::new();
    (video::DecodeFrameRequest { session, bitstream_len }).encode(&mut body);
    proto::frame::plain_frame(
        proto::FrameKind::Request,
        video_op::DECODE_FRAME,
        req_id,
        seq,
        &body,
    )
}

/// What [`video_op::DECODE_FRAME`] yields on receiving `reply`.
pub open spec fn decode_frame_result(reply: Seq<u8>) -> Result<u32, ClientError> {
    match super::reply_body(reply, video_op::DECODE_FRAME) {
        Err(e) => Err(e),
        Ok(body) => match video::DecodeFrameResponse::parse(body) {
            Err(e) => Err(ClientError::Protocol(e)),
            Ok(resp) => Ok(resp.frame_index),
        },
    }
}

/// Read the reply to [`video_op::DECODE_FRAME`]: validate its opcode and kind,
/// and decode the body.
pub fn decode_frame_reply(reply: &[u8]) -> (r: Result<u32, ClientError>)
    ensures
        r == decode_frame_result(reply@),
{
    let body: &[u8] = super::accept_reply(reply, video_op::DECODE_FRAME)?;
    match video::DecodeFrameResponse::decode(body) {
        Err(e) => Err(ClientError::Protocol(e)),
        Ok(resp) => Ok(resp.frame_index),
    }
}

/// The request for [`video_op::DECODE_FRAME`] reaches a server as it was made,
/// and what the server answers is what the caller gets.
pub proof fn law_decode_frame_exchange(
    session: Handle,
    bitstream_len: u32,
    answer: u32,
    req_id: u32,
    seq: u64,
    reply_seq: u64,
)
    ensures
        crate::server::session::screen(
            proto::frame::request_bytes(
                video_op::DECODE_FRAME,
                req_id,
                seq,
                (video::DecodeFrameRequest { session, bitstream_len }).bytes(),
            ),
            proto::DEFAULT_MAX_FRAME_BODY,
        ) matches Ok((h, body)) && h.opcode == video_op::DECODE_FRAME && h.req_id == req_id
            && video::DecodeFrameRequest::parse(body) == Ok::<
            video::DecodeFrameRequest,
            proto::ProtocolError,
        >(
            video::DecodeFrameRequest { session, bitstream_len },
        ),
        decode_frame_result(
            proto::frame::reply_bytes(
                video_op::DECODE_FRAME,
                req_id,
                reply_seq,
                (video::DecodeFrameResponse { frame_index: answer }).bytes(),
            ),
        ) == Ok::<u32, ClientError>(answer),
{
    broadcast use crate::protocol::bytes::group_le_len;

    let req = video::DecodeFrameRequest { session, bitstream_len };
    super::law_request_passes(
        video_op::DECODE_FRAME,
        req_id,
        seq,
        req.bytes(),
        proto::DEFAULT_MAX_FRAME_BODY,
    );
    req.law_whole();
    let resp = video::DecodeFrameResponse { frame_index: answer };
    super::law_reply_accepted(video_op::DECODE_FRAME, req_id, reply_seq, resp.bytes());
    resp.law_whole();
}

/// The request frame of [`video_op::DESTROY_SESSION`], with which to destroy
/// the decode `session`.
pub fn destroy_session_request(session: Handle, req_id: u32, seq: u64) -> (frame: Vec<u8>)
    ensures
        frame@ == proto::frame::request_bytes(
            video_op::DESTROY_SESSION,
            req_id,
            seq,
            (video::DestroySessionRequest { session }).bytes(),
        ),
{
    let mut body: Vec<u8> = Vec::new();
    (video::DestroySessionRequest { session }).encode(&mut body);
    proto::frame::plain_frame(
        proto::FrameKind::Request,
        video_op::DESTROY_SESSION,
        req_id,
        seq,
        &body,
    )
}

/// What [`video_op::DESTROY_SESSION`] yields on receiving `reply`.
pub open spec fn destroy_session_result(reply: Seq<u8>) -> Result<(), ClientError> {
    match super::reply_body(reply, video_op::DESTROY_SESSION) {
        Err(e) => Err(e),
        Ok(_) => Ok(()),
    }
}

/// Read the reply to [`video_op::DESTROY_SESSION`]: validate its opcode and
/// kind. The reply body is an empty acknowledgement, so nothing is decoded.
pub fn destroy_session_reply(reply: &[u8]) -> (r: Result<(), ClientError>)
    ensures
        r == destroy_session_result(reply@),
{
    let _body: &[u8] = super::accept_reply(reply, video_op::DESTROY_SESSION)?;
    Ok(())
}

/// The request for [`video_op::DESTROY_SESSION`] reaches a server as it was
/// made, and what the server answers is what the caller gets.
pub proof fn law_destroy_session_exchange(
    session: Handle,
    req_id: u32,
    seq: u64,
    reply_seq: u64,
)
    ensures
        crate::server::session::screen(
            proto::frame::request_bytes(
                video_op::DESTROY_SESSION,
                req_id,
                seq,
                (video::DestroySessionRequest { session }).bytes(),
            ),
            proto::DEFAULT_MAX_FRAME_BODY,
        ) matches Ok((h, body)) && h.opcode == video_op::DESTROY_SESSION && h.req_id == req_id
            && video::DestroySessionRequest::parse(body) == Ok::<
            video::DestroySessionRequest,
            proto::ProtocolError,
        >(
            video::DestroySessionRequest { session },
        ),
        destroy_session_result(
            proto::frame::reply_bytes(
                video_op::DESTROY_SESSION,
                req_id,
                reply_seq,
                seq![],
            ),
        ) == Ok::<(), ClientError>(()),
{
    broadcast use crate::protocol::bytes::group_le_len;

    let req = video::DestroySessionRequest { session };
    super::law_request_passes(
        video_op::DESTROY_SESSION,
        req_id,
        seq,
        req.bytes(),
        proto::DEFAULT_MAX_FRAME_BODY,
    );
    req.law_whole();
    super::law_reply_accepted(video_op::DESTROY_SESSION, req_id, reply_seq, seq![]);
}

/// The reply to [`video_op::CREATE_DECODE_SESSION`] is read by its opcode, its kind
/// and its body alone. A response under that opcode yields the handle it carries if
/// that is of the right kind, and is refused by the kind if not; where the body is
/// too short for a handle it is refused as an unexpected end. Any other frame is
/// refused as unexpected, and what is no frame for the reason that it is none.
pub proof fn law_create_decode_session_reply(
    h: proto::FrameHeader,
    answer: Handle,
    rest: Seq<u8>,
    body: Seq<u8>,
    garbled: Seq<u8>,
)
    ensures
        h.opcode == video_op::CREATE_DECODE_SESSION && h.kind == proto::FrameKind::Response ==> {
            &&& create_decode_session_result(
                proto::frame::frame_bytes(
                    h,
                    (video::CreateDecodeSessionResponse { session: answer }).bytes() + rest,
                ),
            ) == if answer.spec_kind() == KIND_VIDEO_SESSION {
                Ok::<Handle, ClientError>(answer)
            } else {
                Err::<Handle, ClientError>(
                    ClientError::Protocol(
                        proto::ProtocolError::BadKind(answer.spec_kind() as u16),
                    ),
                )
            }
            &&& body.len() < 8
                ==> create_decode_session_result(proto::frame::frame_bytes(h, body)) == Err::<
                Handle,
                ClientError,
            >(ClientError::Protocol(proto::ProtocolError::UnexpectedEof))
        },
        h.opcode != video_op::CREATE_DECODE_SESSION || h.kind != proto::FrameKind::Response
            ==> create_decode_session_result(
            proto::frame::frame_bytes(h, body),
        ) == Err::<Handle, ClientError>(
            ClientError::UnexpectedReply { opcode: h.opcode, kind: h.kind },
        ),
        proto::frame::parse_frame(garbled) matches Err(e)
            ==> create_decode_session_result(garbled) == Err::<
            Handle,
            ClientError,
        >(ClientError::Protocol(e)),
{
    let resp = video::CreateDecodeSessionResponse { session: answer };
    resp.law_round_trip(rest);
    proto::frame::law_frame_round_trip(h, resp.bytes() + rest);
    proto::frame::law_frame_round_trip(h, body);
}

/// The reply to [`video_op::DECODE_FRAME`] is read by its opcode, its kind and its
/// body alone. A response under that opcode yields the number it carries; where the
/// body is too short for it, it is refused as an unexpected end. Any other frame is
/// refused as unexpected, and what is no frame for the reason that it is none.
pub proof fn law_decode_frame_reply(
    h: proto::FrameHeader,
    answer: u32,
    rest: Seq<u8>,
    body: Seq<u8>,
    garbled: Seq<u8>,
)
    ensures
        h.opcode == video_op::DECODE_FRAME && h.kind == proto::FrameKind::Response ==> {
            &&& decode_frame_result(
                proto::frame::frame_bytes(
                    h,
                    (video::DecodeFrameResponse { frame_index: answer }).bytes() + rest,
                ),
            ) == Ok::<u32, ClientError>(answer)
            &&& body.len() < 4 ==> decode_frame_result(proto::frame::frame_bytes(h, body)) == Err::<
                u32,
                ClientError,
            >(ClientError::Protocol(proto::ProtocolError::UnexpectedEof))
        },
        h.opcode != video_op::DECODE_FRAME || h.kind != proto::FrameKind::Response
            ==> decode_frame_result(
            proto::frame::frame_bytes(h, body),
        ) == Err::<u32, ClientError>(
            ClientError::UnexpectedReply { opcode: h.opcode, kind: h.kind },
        ),
        proto::frame::parse_frame(garbled) matches Err(e) ==> decode_frame_result(garbled) == Err::<
            u32,
            ClientError,
        >(ClientError::Protocol(e)),
{
    let resp = video::DecodeFrameResponse { frame_index: answer };
    resp.law_round_trip(rest);
    proto::frame::law_frame_round_trip(h, resp.bytes() + rest);
    proto::frame::law_frame_round_trip(h, body);
}

/// The reply to [`video_op::DESTROY_SESSION`] is read by its opcode and its kind
/// alone: a response under that opcode is an acknowledgement. Any other frame is
/// refused as unexpected, and what is no frame for the reason that it is none.
pub proof fn law_destroy_session_reply(
    h: proto::FrameHeader,
    body: Seq<u8>,
    garbled: Seq<u8>,
)
    ensures
        h.opcode == video_op::DESTROY_SESSION && h.kind == proto::FrameKind::Response ==> {
            destroy_session_result(proto::frame::frame_bytes(h, body)) == Ok::<(), ClientError>(())
        },
        h.opcode != video_op::DESTROY_SESSION || h.kind != proto::FrameKind::Response
            ==> destroy_session_result(
            proto::frame::frame_bytes(h, body),
        ) == Err::<(), ClientError>(
            ClientError::UnexpectedReply { opcode: h.opcode, kind: h.kind },
        ),
        proto::frame::parse_frame(garbled) matches Err(e)
            ==> destroy_session_result(garbled) == Err::<
            (),
            ClientError,
        >(ClientError::Protocol(e)),
{
    proto::frame::law_frame_round_trip(h, body);
}

/// The request frame of [`video_op::CREATE_DECODE_SESSION`] carries what it was
/// asked for: a request under that opcode, the given request id and sequence
/// number, and a body of nothing but the arguments, in order.
pub proof fn law_create_decode_session_request(
    codec: u32,
    width: u32,
    height: u32,
    req_id: u32,
    seq: u64,
    frame: Vec<u8>,
)
    requires
        call_ensures(create_decode_session_request, (codec, width, height, req_id, seq), frame),
    ensures
        proto::frame::parse_frame(frame@) matches Ok((h, body)) && {
            &&& h.kind == proto::FrameKind::Request
            &&& h.opcode == 0x0700_0001
            &&& h.req_id == req_id
            &&& h.seq == seq
            &&& h.body_len == 12
            &&& body.len() == 12
            &&& proto::bytes::u32_at(body, 0) == codec
            &&& proto::bytes::u32_at(body, 4) == width
            &&& proto::bytes::u32_at(body, 8) == height
        },
{
    let req = video::CreateDecodeSessionRequest { codec, width, height };
    video::law_create_decode_session_request_layout(req);
    proto::frame::law_made_frames(video_op::CREATE_DECODE_SESSION, req_id, seq, req.bytes());
}

/// The request frame of [`video_op::DECODE_FRAME`] carries what it was asked for: a
/// request under that opcode, the given request id and sequence number, and a body
/// of nothing but the arguments, in order.
pub proof fn law_decode_frame_request(
    session: Handle,
    bitstream_len: u32,
    req_id: u32,
    seq: u64,
    frame: Vec<u8>,
)
    requires
        call_ensures(decode_frame_request, (session, bitstream_len, req_id, seq), frame),
    ensures
        proto::frame::parse_frame(frame@) matches Ok((h, body)) && {
            &&& h.kind == proto::FrameKind::Request
            &&& h.opcode == 0x0700_0002
            &&& h.req_id == req_id
            &&& h.seq == seq
            &&& h.body_len == 12
            &&& body.len() == 12
            &&& proto::bytes::u64_at(body, 0) == session@
            &&& proto::bytes::u32_at(body, 8) == bitstream_len
        },
{
    let req = video::DecodeFrameRequest { session, bitstream_len };
    video::law_decode_frame_request_layout(req);
    proto::frame::law_made_frames(video_op::DECODE_FRAME, req_id, seq, req.bytes());
}

/// The request frame of [`video_op::DESTROY_SESSION`] carries what it was asked
/// for: a request under that opcode, the given request id and sequence number, and
/// a body of nothing but the arguments, in order.
pub proof fn law_destroy_session_request(
    session: Handle,
    req_id: u32,
    seq: u64,
    frame: Vec<u8>,
)
    requires
        call_ensures(destroy_session_request, (session, req_id, seq), frame),
    ensures
        proto::frame::parse_frame(frame@) matches Ok((h, body)) && {
            &&& h.kind == proto::FrameKind::Request
            &&& h.opcode == 0x0700_0003
            &&& h.req_id == req_id
            &&& h.seq == seq
            &&& h.body_len == 8
            &&& body.len() == 8
            &&& proto::bytes::u64_at(body, 0) == session@
        },
{
    let req = video::DestroySessionRequest { session };
    video::law_destroy_session_request_layout(req);
    proto::frame::law_made_frames(video_op::DESTROY_SESSION, req_id, seq, req.bytes());
}

} // verus!
