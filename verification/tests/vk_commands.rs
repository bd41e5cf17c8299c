//! Round trips of the Vulkan command shims against canned responses.
use graftx::client::{vk, ClientError};
use graftx::protocol as proto;

/// Server object kinds the responder stamps into the handles it returns. These
/// mirror the kinds the real server backend assigns.
const KIND_COMMAND_POOL: u8 = 7;
const KIND_COMMAND_BUFFER: u8 = 8;

/// Decode one request frame, assert its opcode, and hand back the body bytes.
fn expect_request(frame: &[u8], opcode: u32) -> Vec<u8> {
    let (h, b) = proto::decode_frame(frame).expect("decode request frame");
    assert_eq!(h.opcode, opcode, "request opcode");
    assert_eq!(h.kind, proto::FrameKind::Request, "request kind");
    b.to_vec()
}

/// Build a `Response` frame echoing the request's opcode, `req_id`, and `seq`.
fn response_frame(req: &proto::FrameHeader, body: &[u8]) -> Vec<u8> {
    let header = proto::FrameHeader {
        version: proto::PROTOCOL_MAJOR,
        flags: 0,
        kind: proto::FrameKind::Response,
        opcode: req.opcode,
        req_id: req.req_id,
        seq: req.seq,
        body_len: body.len() as u32,
    };
    proto::encode_frame(&header, body)
}

#[test]
fn create_command_pool_parses_returned_handle() {
    let pool = proto::Handle::new(KIND_COMMAND_POOL, 1, 42);

    let device = proto::Handle::new(3, 1, 0);
    let frame = vk::create_command_pool_request(device, 3, 7, 1);

    let (h, b) = proto::decode_frame(&frame).expect("decode request");
    assert_eq!(h.opcode, proto::vk_op::CREATE_COMMAND_POOL);
    assert_eq!(h.kind, proto::FrameKind::Request);
    let req = proto::vk::CreateCommandPoolRequest::decode(b).expect("decode req body");
    assert_eq!(req.queue_family_index, 3);

    let mut body = Vec::new();
    proto::vk::CreateCommandPoolResponse { pool }.encode(&mut body);
    let reply = response_frame(&h, &body);

    let got = vk::create_command_pool_reply(&reply).expect("create_command_pool");
    assert_eq!(got, pool);
}

#[test]
fn allocate_command_buffer_parses_returned_handle() {
    let command_buffer = proto::Handle::new(KIND_COMMAND_BUFFER, 1, 99);
    let pool = proto::Handle::new(KIND_COMMAND_POOL, 1, 42);
    let frame = vk::allocate_command_buffer_request(pool, 8, 2);

    let body = expect_request(&frame, proto::vk_op::ALLOCATE_COMMAND_BUFFER);
    let req = proto::vk::AllocateCommandBufferRequest::decode(&body).expect("decode req body");
    assert_eq!(req.pool, pool);
    let (h, _) = proto::decode_frame(&frame).expect("decode request header");

    let mut out = Vec::new();
    proto::vk::AllocateCommandBufferResponse { command_buffer }.encode(&mut out);
    let reply = response_frame(&h, &out);

    let got = vk::allocate_command_buffer_reply(&reply).expect("allocate_command_buffer");
    assert_eq!(got, command_buffer);
}

#[test]
fn queue_submit_acknowledges() {
    let queue = proto::Handle::new(4, 1, 0);
    let command_buffer = proto::Handle::new(KIND_COMMAND_BUFFER, 1, 99);
    let frame = vk::queue_submit_request(queue, command_buffer, 9, 3);

    let body = expect_request(&frame, proto::vk_op::QUEUE_SUBMIT);
    let req = proto::vk::QueueSubmitRequest::decode(&body).expect("decode req body");
    assert_eq!(req.queue, queue);
    assert_eq!(req.command_buffer, command_buffer);
    let (h, _) = proto::decode_frame(&frame).expect("decode request header");

    // QueueSubmit's reply is an empty ack body.
    let reply = response_frame(&h, &[]);

    vk::queue_submit_reply(&reply).expect("queue_submit");
}

#[test]
fn cmd_copy_buffer_acknowledges() {
    let command_buffer = proto::Handle::new(KIND_COMMAND_BUFFER, 1, 99);
    let src = proto::Handle::new(6, 1, 10);
    let dst = proto::Handle::new(6, 1, 11);
    let frame = vk::cmd_copy_buffer_request(command_buffer, src, dst, 256, 11, 4);

    let body = expect_request(&frame, proto::vk_op::CMD_COPY_BUFFER);
    let req = proto::vk::CmdCopyBufferRequest::decode(&body).expect("decode req body");
    assert_eq!(req.command_buffer, command_buffer);
    assert_eq!(req.src, src);
    assert_eq!(req.dst, dst);
    assert_eq!(req.size, 256);
    let (h, _) = proto::decode_frame(&frame).expect("decode request header");

    // CmdCopyBuffer's reply is an empty ack body.
    let reply = response_frame(&h, &[]);

    vk::cmd_copy_buffer_reply(&reply).expect("cmd_copy_buffer");
}

#[test]
fn cmd_draw_acknowledges() {
    let command_buffer = proto::Handle::new(KIND_COMMAND_BUFFER, 1, 99);
    let frame = vk::cmd_draw_request(command_buffer, 3, 1, 12, 5);

    let body = expect_request(&frame, proto::vk_op::CMD_DRAW);
    let req = proto::vk::CmdDrawRequest::decode(&body).expect("decode req body");
    assert_eq!(req.command_buffer, command_buffer);
    assert_eq!(req.vertex_count, 3);
    assert_eq!(req.instance_count, 1);
    let (h, _) = proto::decode_frame(&frame).expect("decode request header");

    // CmdDraw's reply is an empty ack body.
    let reply = response_frame(&h, &[]);

    vk::cmd_draw_reply(&reply).expect("cmd_draw");
}

#[test]
fn cmd_draw_rejects_wrong_opcode() {
    let command_buffer = proto::Handle::new(KIND_COMMAND_BUFFER, 1, 99);
    let frame = vk::cmd_draw_request(command_buffer, 3, 1, 13, 6);

    let (h, _) = proto::decode_frame(&frame).expect("decode request header");
    // Reply with the wrong opcode to exercise the validation path.
    let bogus = proto::FrameHeader {
        version: proto::PROTOCOL_MAJOR,
        flags: 0,
        kind: proto::FrameKind::Response,
        opcode: proto::vk_op::CMD_COPY_BUFFER,
        req_id: h.req_id,
        seq: h.seq,
        body_len: 0,
    };
    let reply = proto::encode_frame(&bogus, &[]);

    let err = vk::cmd_draw_reply(&reply).expect_err("wrong opcode must error");
    match err {
        ClientError::UnexpectedReply { opcode, kind } => {
            assert_eq!(opcode, proto::vk_op::CMD_COPY_BUFFER);
            assert_eq!(kind, proto::FrameKind::Response);
        }
        other => panic!("expected UnexpectedReply, got {other:?}"),
    }
}

#[test]
fn create_command_pool_rejects_wrong_kind() {
    // A handle whose kind is *not* KIND_COMMAND_POOL must be rejected.
    let bogus = proto::Handle::new(KIND_COMMAND_BUFFER, 1, 1);

    let device = proto::Handle::new(3, 1, 0);
    let frame = vk::create_command_pool_request(device, 0, 1, 1);

    let (h, _) = proto::decode_frame(&frame).expect("decode request header");
    let mut body = Vec::new();
    proto::vk::CreateCommandPoolResponse { pool: bogus }.encode(&mut body);
    let reply = response_frame(&h, &body);

    let err = vk::create_command_pool_reply(&reply).expect_err("wrong kind must error");
    match err {
        ClientError::Protocol(proto::ProtocolError::BadKind(k)) => {
            assert_eq!(k, u16::from(KIND_COMMAND_BUFFER));
        }
        other => panic!("expected BadKind, got {other:?}"),
    }
}
