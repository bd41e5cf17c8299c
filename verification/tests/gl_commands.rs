//! Round trips of the OpenGL command shims against canned responses.
use graftx::client::{gl, ClientError};
use graftx::protocol as proto;

/// Server object kinds the responder works with. These mirror the kinds the
/// real server backend assigns.
const KIND_GL_CONTEXT: u8 = 10;
const KIND_GL_BUFFER: u8 = 11;

/// Decode one request frame, assert its opcode, and hand back the body bytes.
fn expect_request(frame: &[u8], opcode: u32) -> Vec<u8> {
    let (h, b) = proto::decode_frame(frame).expect("decode request frame");
    assert_eq!(h.opcode, opcode, "request opcode");
    assert_eq!(h.kind, proto::FrameKind::Request, "request kind");
    b.to_vec()
}

/// Build a `Response` frame echoing the request's opcode, `req_id`, and `seq`.
fn response_frame(req: &proto::FrameHeader, body: &[u8]) -> Vec<u8> {
    let header = proto::FrameHeader {
        version: proto::PROTOCOL_MAJOR,
        flags: 0,
        kind: proto::FrameKind::Response,
        opcode: req.opcode,
        req_id: req.req_id,
        seq: req.seq,
        body_len: body.len() as u32,
    };
    proto::encode_frame(&header, body)
}

#[test]
fn swap_buffers_acknowledges() {
    let context = proto::Handle::new(KIND_GL_CONTEXT, 1, 1);
    let frame = gl::swap_buffers_request(context, 20, 1);

    let body = expect_request(&frame, proto::gl_op::SWAP_BUFFERS);
    let req = proto::gl::SwapBuffersRequest::decode(&body).expect("decode req body");
    assert_eq!(req.context, context);
    let (h, _) = proto::decode_frame(&frame).expect("decode request header");

    // SwapBuffers' reply is an empty ack body.
    let reply = response_frame(&h, &[]);

    gl::swap_buffers_reply(&reply).expect("swap_buffers");
}

#[test]
fn delete_buffer_acknowledges() {
    let buffer = proto::Handle::new(KIND_GL_BUFFER, 1, 5);
    let frame = gl::delete_buffer_request(buffer, 21, 2);

    let body = expect_request(&frame, proto::gl_op::DELETE_BUFFER);
    let req = proto::gl::DeleteBufferRequest::decode(&body).expect("decode req body");
    assert_eq!(req.buffer, buffer);
    let (h, _) = proto::decode_frame(&frame).expect("decode request header");

    // DeleteBuffer's reply is an empty ack body.
    let reply = response_frame(&h, &[]);

    gl::delete_buffer_reply(&reply).expect("delete_buffer");
}

#[test]
fn swap_buffers_rejects_wrong_opcode() {
    let context = proto::Handle::new(KIND_GL_CONTEXT, 1, 1);
    let frame = gl::swap_buffers_request(context, 22, 3);

    let (h, _) = proto::decode_frame(&frame).expect("decode request header");
    // Reply with the wrong opcode to exercise the validation path.
    let bogus = proto::FrameHeader {
        version: proto::PROTOCOL_MAJOR,
        flags: 0,
        kind: proto::FrameKind::Response,
        opcode: proto::gl_op::DELETE_BUFFER,
        req_id: h.req_id,
        seq: h.seq,
        body_len: 0,
    };
    let reply = proto::encode_frame(&bogus, &[]);

    let err = gl::swap_buffers_reply(&reply).expect_err("wrong opcode must error");
    match err {
        ClientError::UnexpectedReply { opcode, kind } => {
            assert_eq!(opcode, proto::gl_op::DELETE_BUFFER);
            assert_eq!(kind, proto::FrameKind::Response);
        }
        other => panic!("expected UnexpectedReply, got {other:?}"),
    }
}
