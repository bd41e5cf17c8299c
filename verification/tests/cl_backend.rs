//! Cl backend.
use graftx::protocol as proto;
use graftx::server::cl_backend::{KIND_CL_CONTEXT, KIND_CL_MEM};
use graftx::server::{Backend, ClBackend};

/// Encode a `CREATE_BUFFER` request body for `context` and `size`.
fn create_buffer_body(context: proto::Handle, size: u64) -> Vec<u8> {
    let mut body = Vec::new();
    proto::cl::CreateBufferRequest { context, size }.encode(&mut body);
    body
}

/// Encode a `RELEASE_BUFFER` request body for `mem`.
fn release_buffer_body(mem: proto::Handle) -> Vec<u8> {
    let mut body = Vec::new();
    proto::cl::ReleaseBufferRequest { mem }.encode(&mut body);
    body
}

/// Drive a backend through `CREATE_CONTEXT`, returning the minted context
/// handle.
fn create_context(backend: &mut ClBackend) -> proto::Handle {
    let resp = backend
        .handle(proto::cl_op::CREATE_CONTEXT, 1, &[])
        .expect("create context should succeed");
    proto::cl::CreateContextResponse::decode(&resp)
        .expect("decode create context response")
        .context
}

/// Drive a backend through `CREATE_CONTEXT` then `CREATE_BUFFER`, returning
/// the minted memory-buffer handle.
fn create_buffer_one(backend: &mut ClBackend) -> proto::Handle {
    let context = create_context(backend);
    let resp = backend
        .handle(
            proto::cl_op::CREATE_BUFFER,
            2,
            &create_buffer_body(context, 4096),
        )
        .expect("create buffer should succeed");
    proto::cl::CreateBufferResponse::decode(&resp)
        .expect("decode create buffer response")
        .mem
}

#[test]
fn create_context_returns_kind_forty() {
    let mut backend = ClBackend::new();
    let resp = backend
        .handle(proto::cl_op::CREATE_CONTEXT, 1, &[])
        .expect("create context should succeed");

    let decoded = proto::cl::CreateContextResponse::decode(&resp).expect("decode response");
    assert_eq!(decoded.context.kind(), KIND_CL_CONTEXT);
    // The returned handle must resolve in the context table.
    assert!(backend.contexts.get(decoded.context).is_some());
}

#[test]
fn create_buffer_after_context_returns_kind_forty_one() {
    let mut backend = ClBackend::new();
    let context = create_context(&mut backend);

    let resp = backend
        .handle(
            proto::cl_op::CREATE_BUFFER,
            2,
            &create_buffer_body(context, 1024),
        )
        .expect("create buffer should succeed");

    let decoded = proto::cl::CreateBufferResponse::decode(&resp).expect("decode response");
    assert_eq!(decoded.mem.kind(), KIND_CL_MEM);
    let state = backend
        .buffers
        .get(decoded.mem)
        .expect("buffer state present");
    assert_eq!(state.context.raw(), context.raw());
    assert_eq!(state.size, 1024);
}

#[test]
fn create_buffer_with_bogus_context_errors() {
    let mut backend = ClBackend::new();
    // A handle that was never issued by this backend.
    let bogus = proto::Handle::new(KIND_CL_CONTEXT, 0, 999);
    let err = backend
        .handle(
            proto::cl_op::CREATE_BUFFER,
            1,
            &create_buffer_body(bogus, 1024),
        )
        .expect_err("create buffer with bogus context must error");
    assert!(matches!(err, proto::ProtocolError::UnknownOpcode(_)));
}

#[test]
fn release_buffer_of_live_mem_succeeds() {
    let mut backend = ClBackend::new();
    let mem = create_buffer_one(&mut backend);

    let resp = backend
        .handle(proto::cl_op::RELEASE_BUFFER, 3, &release_buffer_body(mem))
        .expect("release buffer should succeed");
    // The reply is an empty ack body.
    assert!(resp.is_empty());
    // The buffer must no longer resolve.
    assert!(backend.buffers.get(mem).is_none());
}

#[test]
fn release_buffer_of_bogus_mem_errors() {
    let mut backend = ClBackend::new();
    // A handle that was never created by this backend.
    let bogus = proto::Handle::new(KIND_CL_MEM, 0, 999);
    let err = backend
        .handle(
            proto::cl_op::RELEASE_BUFFER,
            1,
            &release_buffer_body(bogus),
        )
        .expect_err("release buffer with bogus mem must error");
    assert!(matches!(err, proto::ProtocolError::UnknownOpcode(_)));
}

#[test]
fn release_buffer_of_already_released_mem_errors() {
    let mut backend = ClBackend::new();
    let mem = create_buffer_one(&mut backend);

    backend
        .handle(proto::cl_op::RELEASE_BUFFER, 3, &release_buffer_body(mem))
        .expect("first release should succeed");

    let err = backend
        .handle(proto::cl_op::RELEASE_BUFFER, 4, &release_buffer_body(mem))
        .expect_err("second release must error");
    assert!(matches!(err, proto::ProtocolError::UnknownOpcode(_)));
}

#[test]
fn cl_backend_out_of_namespace_opcode_errors() {
    let mut backend = ClBackend::new();
    // Opcode 0 is a core opcode, not in the OpenCL namespace.
    let err = backend
        .handle(0, 1, &[])
        .expect_err("non-opencl opcode must error");
    assert!(matches!(err, proto::ProtocolError::UnknownOpcode(0)));
}
