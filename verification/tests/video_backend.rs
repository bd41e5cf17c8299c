//! Video backend.
use graftx::protocol as proto;
use graftx::server::video_backend::KIND_VIDEO_SESSION;
use graftx::server::{Backend, VideoBackend};

/// Encode a `CREATE_DECODE_SESSION` request body.
fn create_session_body(codec: u32, width: u32, height: u32) -> Vec<u8> {
    let mut body = Vec::new();
    proto::video::CreateDecodeSessionRequest {
        codec,
        width,
        height,
    }
    .encode(&mut body);
    body
}

/// Encode a `DECODE_FRAME` request body.
fn decode_frame_body(session: proto::Handle, bitstream_len: u32) -> Vec<u8> {
    let mut body = Vec::new();
    proto::video::DecodeFrameRequest {
        session,
        bitstream_len,
    }
    .encode(&mut body);
    body
}

/// Encode a `DESTROY_SESSION` request body.
fn destroy_session_body(session: proto::Handle) -> Vec<u8> {
    let mut body = Vec::new();
    proto::video::DestroySessionRequest { session }.encode(&mut body);
    body
}

/// Drive a backend through `CREATE_DECODE_SESSION`, returning the minted
/// session handle.
fn create_session(backend: &mut VideoBackend) -> proto::Handle {
    let resp = backend
        .handle(
            proto::video_op::CREATE_DECODE_SESSION,
            1,
            &create_session_body(7, 1920, 1080),
        )
        .expect("create decode session should succeed");
    proto::video::CreateDecodeSessionResponse::decode(&resp)
        .expect("decode create session response")
        .session
}

#[test]
fn create_decode_session_returns_kind_sixty() {
    let mut backend = VideoBackend::new();
    let resp = backend
        .handle(
            proto::video_op::CREATE_DECODE_SESSION,
            1,
            &create_session_body(7, 640, 480),
        )
        .expect("create decode session should succeed");

    let decoded =
        proto::video::CreateDecodeSessionResponse::decode(&resp).expect("decode response");
    assert_eq!(decoded.session.kind(), KIND_VIDEO_SESSION);
    // The returned handle must resolve in the session table.
    assert!(backend.sessions.get(decoded.session).is_some());
}

#[test]
fn decode_frame_returns_incrementing_indices() {
    let mut backend = VideoBackend::new();
    let session = create_session(&mut backend);

    let first = backend
        .handle(
            proto::video_op::DECODE_FRAME,
            2,
            &decode_frame_body(session, 256),
        )
        .expect("first decode frame should succeed");
    let first_index = proto::video::DecodeFrameResponse::decode(&first)
        .expect("decode first response")
        .frame_index;
    assert_eq!(first_index, 0);

    let second = backend
        .handle(
            proto::video_op::DECODE_FRAME,
            3,
            &decode_frame_body(session, 256),
        )
        .expect("second decode frame should succeed");
    let second_index = proto::video::DecodeFrameResponse::decode(&second)
        .expect("decode second response")
        .frame_index;
    assert_eq!(second_index, 1);
}

#[test]
fn decode_frame_with_bogus_session_errors() {
    let mut backend = VideoBackend::new();
    // A handle that was never issued by this backend.
    let bogus = proto::Handle::new(KIND_VIDEO_SESSION, 0, 999);
    let err = backend
        .handle(
            proto::video_op::DECODE_FRAME,
            1,
            &decode_frame_body(bogus, 128),
        )
        .expect_err("decode frame with bogus session must error");
    assert!(matches!(err, proto::ProtocolError::UnknownOpcode(_)));
}

#[test]
fn destroy_session_of_live_session_succeeds() {
    let mut backend = VideoBackend::new();
    let session = create_session(&mut backend);

    let resp = backend
        .handle(
            proto::video_op::DESTROY_SESSION,
            4,
            &destroy_session_body(session),
        )
        .expect("destroy session should succeed");
    // The reply is an empty ack body.
    assert!(resp.is_empty());
    // The session must no longer resolve.
    assert!(backend.sessions.get(session).is_none());
}

#[test]
fn destroy_session_of_bogus_session_errors() {
    let mut backend = VideoBackend::new();
    // A handle that was never created by this backend.
    let bogus = proto::Handle::new(KIND_VIDEO_SESSION, 0, 999);
    let err = backend
        .handle(
            proto::video_op::DESTROY_SESSION,
            1,
            &destroy_session_body(bogus),
        )
        .expect_err("destroy session with bogus session must error");
    assert!(matches!(err, proto::ProtocolError::UnknownOpcode(_)));
}

#[test]
fn video_backend_out_of_namespace_opcode_errors() {
    let mut backend = VideoBackend::new();
    // Opcode 0 is a core opcode, not in the Video namespace.
    let err = backend
        .handle(0, 1, &[])
        .expect_err("non-video opcode must error");
    assert!(matches!(err, proto::ProtocolError::UnknownOpcode(0)));
}
