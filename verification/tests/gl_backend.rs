//! Gl backend.
use graftx::protocol as proto;
use graftx::server::gl_backend::{KIND_GL_BUFFER, KIND_GL_CONTEXT};
use graftx::server::{Backend, GlBackend};

/// Encode a `MAKE_CURRENT` request body for `context`.
fn make_current_body(context: proto::Handle) -> Vec<u8> {
    let mut body = Vec::new();
    proto::gl::MakeCurrentRequest { context }.encode(&mut body);
    body
}

/// Encode a `GEN_BUFFER` request body for `context`.
fn gen_buffer_body(context: proto::Handle) -> Vec<u8> {
    let mut body = Vec::new();
    proto::gl::GenBufferRequest { context }.encode(&mut body);
    body
}

/// Drive a backend through `CREATE_CONTEXT`, returning the minted handle.
fn create_context(backend: &mut GlBackend) -> proto::Handle {
    let resp = backend
        .handle(proto::gl_op::CREATE_CONTEXT, 1, &[])
        .expect("create context should succeed");
    proto::gl::CreateContextResponse::decode(&resp)
        .expect("decode create context response")
        .context
}

#[test]
fn create_context_returns_kind_ten() {
    let mut backend = GlBackend::new();
    let resp = backend
        .handle(proto::gl_op::CREATE_CONTEXT, 1, &[])
        .expect("create context should succeed");

    let decoded = proto::gl::CreateContextResponse::decode(&resp).expect("decode response");
    assert_eq!(decoded.context.kind(), KIND_GL_CONTEXT);
    // The returned handle must resolve in the context table.
    assert!(backend.contexts.get(decoded.context).is_some());
}

#[test]
fn make_current_after_create_returns_empty_ack() {
    let mut backend = GlBackend::new();
    let context = create_context(&mut backend);

    let resp = backend
        .handle(proto::gl_op::MAKE_CURRENT, 2, &make_current_body(context))
        .expect("make current should succeed");
    assert!(resp.is_empty());
}

#[test]
fn gen_buffer_after_create_returns_kind_eleven() {
    let mut backend = GlBackend::new();
    let context = create_context(&mut backend);

    let resp = backend
        .handle(proto::gl_op::GEN_BUFFER, 3, &gen_buffer_body(context))
        .expect("gen buffer should succeed");

    let decoded = proto::gl::GenBufferResponse::decode(&resp).expect("decode response");
    assert_eq!(decoded.buffer.kind(), KIND_GL_BUFFER);
    let state = backend
        .buffers
        .get(decoded.buffer)
        .expect("buffer state present");
    assert_eq!(state.context.raw(), context.raw());
}

#[test]
fn make_current_with_bogus_context_errors() {
    let mut backend = GlBackend::new();
    // A handle that was never issued by this backend.
    let bogus = proto::Handle::new(KIND_GL_CONTEXT, 0, 999);
    let err = backend
        .handle(proto::gl_op::MAKE_CURRENT, 1, &make_current_body(bogus))
        .expect_err("make current with bogus context must error");
    assert!(matches!(err, proto::ProtocolError::UnknownOpcode(_)));
}

#[test]
fn gen_buffer_with_bogus_context_errors() {
    let mut backend = GlBackend::new();
    // A handle that was never issued by this backend.
    let bogus = proto::Handle::new(KIND_GL_CONTEXT, 0, 999);
    let err = backend
        .handle(proto::gl_op::GEN_BUFFER, 1, &gen_buffer_body(bogus))
        .expect_err("gen buffer with bogus context must error");
    assert!(matches!(err, proto::ProtocolError::UnknownOpcode(_)));
}

#[test]
fn gl_backend_out_of_namespace_opcode_errors() {
    let mut backend = GlBackend::new();
    // Opcode 0 is a core opcode, not in the OpenGL namespace.
    let err = backend
        .handle(0, 1, &[])
        .expect_err("non-opengl opcode must error");
    assert!(matches!(err, proto::ProtocolError::UnknownOpcode(0)));
}
