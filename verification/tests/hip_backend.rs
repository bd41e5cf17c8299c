//! Hip backend.
use graftx::protocol as proto;
use graftx::server::hip_backend::{KIND_HIP_DEVICE_PTR, KIND_HIP_STREAM};
use graftx::server::{Backend, HipBackend};

/// Encode a `MALLOC` request body for `size`.
fn malloc_body(size: u64) -> Vec<u8> {
    let mut body = Vec::new();
    proto::hip::MallocRequest { size }.encode(&mut body);
    body
}

/// Encode a `FREE` request body for `dptr`.
fn free_body(dptr: proto::Handle) -> Vec<u8> {
    let mut body = Vec::new();
    proto::hip::FreeRequest { dptr }.encode(&mut body);
    body
}

/// Drive a backend through `MALLOC`, returning the minted device-pointer
/// handle.
fn alloc_one(backend: &mut HipBackend) -> proto::Handle {
    let resp = backend
        .handle(proto::hip_op::MALLOC, 1, &malloc_body(4096))
        .expect("malloc should succeed");
    proto::hip::MallocResponse::decode(&resp)
        .expect("decode malloc response")
        .dptr
}

#[test]
fn malloc_returns_kind_thirty() {
    let mut backend = HipBackend::new();
    let resp = backend
        .handle(proto::hip_op::MALLOC, 1, &malloc_body(1024))
        .expect("malloc should succeed");

    let decoded = proto::hip::MallocResponse::decode(&resp).expect("decode response");
    assert_eq!(decoded.dptr.kind(), KIND_HIP_DEVICE_PTR);
    // The returned handle must resolve in the allocation table.
    let state = backend
        .allocations
        .get(decoded.dptr)
        .expect("allocation state present");
    assert_eq!(state.size, 1024);
}

#[test]
fn free_of_live_dptr_succeeds() {
    let mut backend = HipBackend::new();
    let dptr = alloc_one(&mut backend);

    let resp = backend
        .handle(proto::hip_op::FREE, 2, &free_body(dptr))
        .expect("free should succeed");
    // The reply is an empty ack body.
    assert!(resp.is_empty());
    // The allocation must no longer resolve.
    assert!(backend.allocations.get(dptr).is_none());
}

#[test]
fn free_of_bogus_dptr_errors() {
    let mut backend = HipBackend::new();
    // A handle that was never allocated by this backend.
    let bogus = proto::Handle::new(KIND_HIP_DEVICE_PTR, 0, 999);
    let err = backend
        .handle(proto::hip_op::FREE, 1, &free_body(bogus))
        .expect_err("free with bogus dptr must error");
    assert!(matches!(err, proto::ProtocolError::UnknownOpcode(_)));
}

#[test]
fn free_of_already_freed_dptr_errors() {
    let mut backend = HipBackend::new();
    let dptr = alloc_one(&mut backend);

    backend
        .handle(proto::hip_op::FREE, 2, &free_body(dptr))
        .expect("first free should succeed");

    let err = backend
        .handle(proto::hip_op::FREE, 3, &free_body(dptr))
        .expect_err("second free must error");
    assert!(matches!(err, proto::ProtocolError::UnknownOpcode(_)));
}

#[test]
fn stream_create_returns_kind_thirty_one() {
    let mut backend = HipBackend::new();
    let resp = backend
        .handle(proto::hip_op::STREAM_CREATE, 1, &[])
        .expect("stream create should succeed");

    let decoded = proto::hip::StreamCreateResponse::decode(&resp).expect("decode response");
    assert_eq!(decoded.stream.kind(), KIND_HIP_STREAM);
    // The returned handle must resolve in the stream table.
    assert!(backend.streams.get(decoded.stream).is_some());
}

#[test]
fn hip_backend_out_of_namespace_opcode_errors() {
    let mut backend = HipBackend::new();
    // Opcode 0 is a core opcode, not in the HIP namespace.
    let err = backend
        .handle(0, 1, &[])
        .expect_err("non-hip opcode must error");
    assert!(matches!(err, proto::ProtocolError::UnknownOpcode(0)));
}
