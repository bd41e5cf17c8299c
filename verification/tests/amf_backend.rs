//! Amf backend.
use graftx::protocol as proto;
use graftx::server::amf_backend::KIND_AMF_ENCODER;
use graftx::server::{Backend, AmfBackend};

/// Encode a `CREATE_ENCODER` request body.
fn create_encoder_body(codec: u32, width: u32, height: u32) -> Vec<u8> {
    let mut body = Vec::new();
    proto::amf::CreateEncoderRequest {
        codec,
        width,
        height,
    }
    .encode(&mut body);
    body
}

/// Encode an `ENCODE_FRAME` request body for `encoder` and `frame_len`.
fn encode_frame_body(encoder: proto::Handle, frame_len: u32) -> Vec<u8> {
    let mut body = Vec::new();
    proto::amf::EncodeFrameRequest { encoder, frame_len }.encode(&mut body);
    body
}

/// Encode a `DESTROY_ENCODER` request body for `encoder`.
fn destroy_encoder_body(encoder: proto::Handle) -> Vec<u8> {
    let mut body = Vec::new();
    proto::amf::DestroyEncoderRequest { encoder }.encode(&mut body);
    body
}

/// Drive a backend through `CREATE_ENCODER`, returning the minted encoder
/// handle.
fn create_encoder(backend: &mut AmfBackend) -> proto::Handle {
    let resp = backend
        .handle(
            proto::amf_op::CREATE_ENCODER,
            1,
            &create_encoder_body(1, 1920, 1080),
        )
        .expect("create encoder should succeed");
    proto::amf::CreateEncoderResponse::decode(&resp)
        .expect("decode create encoder response")
        .encoder
}

#[test]
fn create_encoder_returns_kind_one_hundred() {
    let mut backend = AmfBackend::new();
    let resp = backend
        .handle(
            proto::amf_op::CREATE_ENCODER,
            1,
            &create_encoder_body(2, 1280, 720),
        )
        .expect("create encoder should succeed");

    let decoded = proto::amf::CreateEncoderResponse::decode(&resp).expect("decode response");
    assert_eq!(decoded.encoder.kind(), KIND_AMF_ENCODER);
    let state = backend
        .encoders
        .get(decoded.encoder)
        .expect("encoder state present");
    assert_eq!(state.codec, 2);
    assert_eq!(state.width, 1280);
    assert_eq!(state.height, 720);
    assert_eq!(state.frames, 0);
}

#[test]
fn encode_frame_echoes_frame_len_and_bumps_counter() {
    let mut backend = AmfBackend::new();
    let encoder = create_encoder(&mut backend);

    let resp = backend
        .handle(
            proto::amf_op::ENCODE_FRAME,
            2,
            &encode_frame_body(encoder, 4096),
        )
        .expect("encode frame should succeed");
    let decoded = proto::amf::EncodeFrameResponse::decode(&resp).expect("decode response");
    // The produced packet length echoes the submitted frame length.
    assert_eq!(decoded.packet_len, 4096);

    // A second frame echoes its own length, and the counter has advanced.
    let resp = backend
        .handle(
            proto::amf_op::ENCODE_FRAME,
            3,
            &encode_frame_body(encoder, 8192),
        )
        .expect("encode frame should succeed");
    let decoded = proto::amf::EncodeFrameResponse::decode(&resp).expect("decode response");
    assert_eq!(decoded.packet_len, 8192);

    let state = backend
        .encoders
        .get(encoder)
        .expect("encoder state present");
    assert_eq!(state.frames, 2);
}

#[test]
fn encode_frame_with_bogus_encoder_errors() {
    let mut backend = AmfBackend::new();
    // A handle that was never issued by this backend.
    let bogus = proto::Handle::new(KIND_AMF_ENCODER, 0, 999);
    let err = backend
        .handle(
            proto::amf_op::ENCODE_FRAME,
            1,
            &encode_frame_body(bogus, 4096),
        )
        .expect_err("encode frame with bogus encoder must error");
    assert!(matches!(err, proto::ProtocolError::UnknownOpcode(_)));
}

#[test]
fn destroy_of_live_encoder_succeeds() {
    let mut backend = AmfBackend::new();
    let encoder = create_encoder(&mut backend);

    let resp = backend
        .handle(
            proto::amf_op::DESTROY_ENCODER,
            2,
            &destroy_encoder_body(encoder),
        )
        .expect("destroy encoder should succeed");
    // The reply is an empty ack body.
    assert!(resp.is_empty());
    // The encoder must no longer resolve.
    assert!(backend.encoders.get(encoder).is_none());
}

#[test]
fn destroy_of_bogus_encoder_errors() {
    let mut backend = AmfBackend::new();
    // A handle that was never created by this backend.
    let bogus = proto::Handle::new(KIND_AMF_ENCODER, 0, 999);
    let err = backend
        .handle(
            proto::amf_op::DESTROY_ENCODER,
            1,
            &destroy_encoder_body(bogus),
        )
        .expect_err("destroy of bogus encoder must error");
    assert!(matches!(err, proto::ProtocolError::UnknownOpcode(_)));
}

#[test]
fn destroy_of_already_destroyed_encoder_errors() {
    let mut backend = AmfBackend::new();
    let encoder = create_encoder(&mut backend);

    backend
        .handle(
            proto::amf_op::DESTROY_ENCODER,
            2,
            &destroy_encoder_body(encoder),
        )
        .expect("first destroy should succeed");

    let err = backend
        .handle(
            proto::amf_op::DESTROY_ENCODER,
            3,
            &destroy_encoder_body(encoder),
        )
        .expect_err("second destroy must error");
    assert!(matches!(err, proto::ProtocolError::UnknownOpcode(_)));
}

#[test]
fn amf_backend_out_of_namespace_opcode_errors() {
    let mut backend = AmfBackend::new();
    // Opcode 0 is a core opcode, not in the AMF namespace.
    let err = backend
        .handle(0, 1, &[])
        .expect_err("non-amf opcode must error");
    assert!(matches!(err, proto::ProtocolError::UnknownOpcode(0)));
}
