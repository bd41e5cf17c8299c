//! The session client and the replies that clients read.
use graftx::client::{
    accept_reply, check_kind, handshake_reply, handshake_request, noop_reply, noop_request,
    protocol_version, vk, Client, ClientError,
};
use graftx::protocol as proto;

/// Server object kind for a `VkInstance` handle (mirrors the server backend).
const KIND_INSTANCE: u8 = 1;
/// Server object kind for a `VkPhysicalDevice` handle.
const KIND_PHYSICAL_DEVICE: u8 = 2;

/// Build a `Response` frame echoing the request's opcode, `req_id`, and `seq`.
fn response_frame(req: &proto::FrameHeader, body: &[u8]) -> Vec<u8> {
    let header = proto::FrameHeader {
        version: proto::PROTOCOL_MAJOR,
        flags: 0,
        kind: proto::FrameKind::Response,
        opcode: req.opcode,
        req_id: req.req_id,
        seq: req.seq,
        body_len: body.len() as u32,
    };
    proto::encode_frame(&header, body)
}

/// Drive `connect` -> `noop` -> `vk_create_instance` ->
/// `vk_enumerate_physical_devices` against canned responses.
///
/// The opcode sequence is the expected one, and the client's counters hand out
/// distinct, monotonic `req_id`/`seq` values.
#[test]
fn client_drives_handshake_noop_and_vk_calls() {
    let session_id = 0xABCD_1234_5678_9ABC;
    let instance = proto::Handle::new(KIND_INSTANCE, 1, 7);
    let device = proto::Handle::new(KIND_PHYSICAL_DEVICE, 1, 11);

    // 1. Handshake: Hello -> Welcome. Uses the fixed req_id/seq of 1.
    let frame = handshake_request();
    let (h, _) = proto::decode_frame(&frame).expect("decode hello");
    assert_eq!(h.opcode, proto::core_op::HELLO);
    assert_eq!(h.kind, proto::FrameKind::Request);
    assert_eq!(h.req_id, 1);
    assert_eq!(h.seq, 1);
    let mut body = Vec::new();
    proto::Welcome {
        proto_major: proto::PROTOCOL_MAJOR,
        proto_minor: proto::PROTOCOL_MINOR,
        features: 0,
        max_frame_body: proto::DEFAULT_MAX_FRAME_BODY,
        session_id,
    }
    .encode(&mut body);
    // The handshake reply carries the WELCOME opcode, not HELLO.
    let welcome = proto::FrameHeader {
        version: proto::PROTOCOL_MAJOR,
        flags: 0,
        kind: proto::FrameKind::Response,
        opcode: proto::core_op::WELCOME,
        req_id: h.req_id,
        seq: h.seq,
        body_len: body.len() as u32,
    };
    let mut client = Client::connect(&proto::encode_frame(&welcome, &body)).expect("connect");
    assert_eq!(client.session_id(), session_id);

    // 2. Noop: first post-handshake call, so req_id/seq == 2.
    let frame = client.noop();
    let (h, _) = proto::decode_frame(&frame).expect("decode noop");
    assert_eq!(h.opcode, proto::core_op::NOOP);
    assert_eq!(h.req_id, 2);
    assert_eq!(h.seq, 2);
    noop_reply(&response_frame(&h, &[])).expect("noop");

    // 3. CreateInstance: counters advanced to 3.
    let frame = client.vk_create_instance(0x0040_3000);
    let (h, b) = proto::decode_frame(&frame).expect("decode create_instance");
    assert_eq!(h.opcode, proto::vk_op::CREATE_INSTANCE);
    assert_eq!(h.req_id, 3);
    assert_eq!(h.seq, 3);
    let req = proto::vk::CreateInstanceRequest::decode(b).expect("decode req body");
    assert_eq!(req.app_api_version, 0x0040_3000);
    let mut body = Vec::new();
    proto::vk::CreateInstanceResponse { instance }.encode(&mut body);
    let got_instance =
        vk::create_instance_reply(&response_frame(&h, &body)).expect("create_instance");
    assert_eq!(got_instance, instance);

    // 4. EnumeratePhysicalDevices: counters advanced to 4.
    let frame = client.vk_enumerate_physical_devices(got_instance);
    let (h, b) = proto::decode_frame(&frame).expect("decode enumerate");
    assert_eq!(h.opcode, proto::vk_op::ENUMERATE_PHYSICAL_DEVICES);
    assert_eq!(h.req_id, 4);
    assert_eq!(h.seq, 4);
    let req = proto::vk::EnumeratePhysicalDevicesRequest::decode(b).expect("decode req body");
    assert_eq!(req.instance, instance);
    let mut body = Vec::new();
    proto::vk::EnumeratePhysicalDevicesResponse { devices: vec![device] }.encode(&mut body);
    let got_devices = vk::enumerate_physical_devices_reply(&response_frame(&h, &body))
        .expect("enumerate_physical_devices");
    assert_eq!(got_devices, vec![device]);
}

#[test]
fn every_client_error_has_its_message() {
    // A frame that cannot be decoded.
    let err = noop_reply(&[0u8; 4]).expect_err("short frame");
    assert_eq!(err, ClientError::Protocol(proto::ProtocolError::UnexpectedEof));
    assert_eq!(
        err.message(),
        format!("protocol error: {}", proto::ProtocolError::UnexpectedEof.message())
    );

    // A request where a response was due.
    let err = noop_reply(&noop_request(1, 1)).expect_err("a request is no reply");
    assert_eq!(
        err,
        ClientError::UnexpectedReply {
            opcode: proto::core_op::NOOP,
            kind: proto::FrameKind::Request,
        }
    );
    assert_eq!(
        err.message(),
        "unexpected reply: opcode 0x00000003, kind Request"
    );
}

#[test]
fn reply_body_is_handed_out() {
    let (h, _) = proto::decode_frame(&noop_request(5, 6)).expect("decode");
    let reply = response_frame(&h, b"body");
    assert_eq!(accept_reply(&reply, proto::core_op::NOOP), Ok(&b"body"[..]));
    assert!(accept_reply(&reply, proto::core_op::HELLO).is_err());
}

#[test]
fn handshake_reply_needs_the_welcome_opcode() {
    let frame = handshake_request();
    let (h, body) = proto::decode_frame(&frame).expect("decode");
    assert_eq!(
        handshake_reply(&response_frame(&h, body)),
        Err(ClientError::UnexpectedReply {
            opcode: proto::core_op::HELLO,
            kind: proto::FrameKind::Response,
        })
    );
}

#[test]
fn handles_of_another_kind_are_refused() {
    let h = proto::Handle::new(7, 2, 3);
    assert_eq!(check_kind(h, 7), Ok(h));
    assert_eq!(
        check_kind(h, 8),
        Err(ClientError::Protocol(proto::ProtocolError::BadKind(7)))
    );
}

#[test]
fn client_speaks_the_protocol_version() {
    assert_eq!(
        protocol_version(),
        (proto::PROTOCOL_MAJOR, proto::PROTOCOL_MINOR)
    );
}
