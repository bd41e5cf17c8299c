//! Server session.
use graftx::client::{gl, vk};
use graftx::protocol as proto;
use graftx::server::{GlBackend, Session, VulkanBackend};

fn hello_frame() -> Vec<u8> {
    let hello = proto::Hello {
        proto_major: proto::PROTOCOL_MAJOR,
        proto_minor: proto::PROTOCOL_MINOR,
        features: 0,
        max_frame_body: proto::DEFAULT_MAX_FRAME_BODY,
    };
    let mut body = Vec::new();
    hello.encode(&mut body);
    let header = proto::FrameHeader {
        version: proto::PROTOCOL_MAJOR,
        flags: 0,
        kind: proto::FrameKind::Request,
        opcode: proto::core_op::HELLO,
        req_id: 1,
        seq: 1,
        body_len: body.len() as u32,
    };
    proto::encode_frame(&header, &body)
}

#[test]
fn hello_yields_welcome() {
    let mut s = Session::new(0x1234);
    let reply = s.handle(&hello_frame()).expect("handle hello");
    let (h, b) = proto::decode_frame(&reply).expect("decode reply");
    assert_eq!(h.opcode, proto::core_op::WELCOME);
    assert_eq!(h.kind, proto::FrameKind::Response);
    let w = proto::Welcome::decode(b).expect("welcome");
    assert_eq!(w.session_id, 0x1234);
    assert!(s.is_handshook());
}

fn request_frame(opcode: u32) -> Vec<u8> {
    let header = proto::FrameHeader {
        version: proto::PROTOCOL_MAJOR,
        flags: 0,
        kind: proto::FrameKind::Request,
        opcode,
        req_id: 7,
        seq: 1,
        body_len: 0,
    };
    proto::encode_frame(&header, &[])
}

#[test]
fn registered_backend_enumerates_zero_devices() {
    let mut s = Session::new(1);
    s.register(Box::new(VulkanBackend::new()));
    let frame = request_frame(proto::vk_op::ENUMERATE_PHYSICAL_DEVICES);
    let reply = s.handle(&frame).expect("handle enumerate");
    let (h, b) = proto::decode_frame(&reply).expect("decode reply");
    assert_eq!(h.opcode, proto::vk_op::ENUMERATE_PHYSICAL_DEVICES);
    assert_eq!(h.kind, proto::FrameKind::Response);
    assert_eq!(h.req_id, 7);
    assert_eq!(b, &0u32.to_le_bytes());
}

#[test]
fn unregistered_api_opcode_is_unknown() {
    // No backend registered for the Vulkan namespace -> UnknownOpcode.
    let mut s = Session::new(1);
    let frame = request_frame(proto::vk_op::ENUMERATE_PHYSICAL_DEVICES);
    assert!(matches!(
        s.handle(&frame),
        Err(proto::ProtocolError::UnknownOpcode(_))
    ));
}

#[test]
fn unknown_opcode_is_rejected() {
    let mut s = Session::new(1);
    let header = proto::FrameHeader {
        version: proto::PROTOCOL_MAJOR,
        flags: 0,
        kind: proto::FrameKind::Request,
        opcode: proto::opcode(proto::ApiId::Vulkan, 0xFFFF),
        req_id: 1,
        seq: 1,
        body_len: 0,
    };
    let frame = proto::encode_frame(&header, &[]);
    assert!(matches!(
        s.handle(&frame),
        Err(proto::ProtocolError::UnknownOpcode(_))
    ));
}

#[test]
fn body_len_mismatch_is_rejected() {
    // Header claims 8 bytes of body but none follow.
    let header = proto::FrameHeader {
        version: proto::PROTOCOL_MAJOR,
        flags: 0,
        kind: proto::FrameKind::Request,
        opcode: proto::core_op::NOOP,
        req_id: 1,
        seq: 1,
        body_len: 8,
    };
    let frame = proto::encode_frame(&header, &[]);
    let mut s = Session::new(1);
    assert!(matches!(
        s.handle(&frame),
        Err(proto::ProtocolError::BodyLenMismatch { .. })
    ));
}

fn hello_with(proto_major: u16, max_frame_body: u32) -> Vec<u8> {
    let hello = proto::Hello { proto_major, proto_minor: 9, features: 0, max_frame_body };
    let mut body = Vec::new();
    hello.encode(&mut body);
    let header = proto::FrameHeader {
        version: proto::PROTOCOL_MAJOR,
        flags: 0,
        kind: proto::FrameKind::Request,
        opcode: proto::core_op::HELLO,
        req_id: 1,
        seq: 1,
        body_len: body.len() as u32,
    };
    proto::encode_frame(&header, &body)
}

#[test]
fn another_major_version_is_refused() {
    let mut s = Session::new(1);
    assert_eq!(
        s.handle(&hello_with(3, 100)),
        Err(proto::ProtocolError::BadVersion { major: 3, minor: 9 })
    );
    assert!(!s.is_handshook());
}

#[test]
fn negotiated_limit_is_the_smaller_one_and_is_enforced() {
    let mut s = Session::new(1);
    let reply = s.handle(&hello_with(proto::PROTOCOL_MAJOR, 100)).expect("handle hello");
    let (_, b) = proto::decode_frame(&reply).expect("decode reply");
    assert_eq!(proto::Welcome::decode(b).expect("welcome").max_frame_body, 100);
    assert_eq!(s.max_frame_body, 100);

    let header = proto::FrameHeader {
        version: proto::PROTOCOL_MAJOR,
        flags: 0,
        kind: proto::FrameKind::Request,
        opcode: proto::core_op::NOOP,
        req_id: 1,
        seq: 1,
        body_len: 101,
    };
    let frame = proto::encode_frame(&header, &[0; 101]);
    assert_eq!(s.handle(&frame), Err(proto::ProtocolError::FrameTooLarge(101)));
}

#[test]
fn replies_are_numbered_without_gaps() {
    let mut s = Session::new(1);
    s.register(Box::new(VulkanBackend::new()));
    for seq in 1..5u64 {
        let reply = s.handle(&request_frame(proto::core_op::NOOP)).expect("handle noop");
        let (h, _) = proto::decode_frame(&reply).expect("decode reply");
        assert_eq!(h.seq, seq);
        assert_eq!(h.req_id, 7);
        // A refused frame takes no number.
        assert!(s.handle(&request_frame(0x0100_FFFF)).is_err());
    }
}

fn instance_of(reply: &[u8]) -> proto::Handle {
    let (_, body) = proto::decode_frame(reply).expect("decode reply");
    proto::vk::CreateInstanceResponse::decode(body).expect("instance").instance
}

#[test]
fn a_later_backend_replaces_the_earlier_one_of_its_namespace() {
    let mut s = Session::new(9);
    s.register(Box::new(VulkanBackend::new()));
    s.register(Box::new(GlBackend::new()));
    s.handle(&hello_frame()).expect("handle hello");
    let reply = s.handle(&vk::create_instance_request(0, 1, 1)).expect("create instance");
    let instance = instance_of(&reply);
    let reply = s.handle(&gl::create_context_request(2, 2)).expect("create context");
    let context = gl::create_context_reply(&reply).expect("context");

    s.register(Box::new(VulkanBackend::new()));
    assert_eq!(s.session_id, 9);
    assert_eq!(s.max_frame_body, proto::DEFAULT_MAX_FRAME_BODY);
    assert!(s.is_handshook());
    // The new backend does not know the instance of the earlier one.
    assert_eq!(
        s.handle(&vk::enumerate_physical_devices_request(instance, 3, 3)),
        Err(proto::ProtocolError::UnknownOpcode(
            proto::vk_op::ENUMERATE_PHYSICAL_DEVICES
        ))
    );
    // The other namespace goes on as before, and so does the numbering.
    let reply = s.handle(&gl::make_current_request(context, 4, 4)).expect("make current");
    let (h, _) = proto::decode_frame(&reply).expect("decode reply");
    assert_eq!(h.seq, 4);
}
