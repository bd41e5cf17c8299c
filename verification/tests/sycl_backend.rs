//! Sycl backend.
use graftx::protocol as proto;
use graftx::server::sycl_backend::{KIND_SYCL_DEVICE_PTR, KIND_SYCL_QUEUE};
use graftx::server::{Backend, SyclBackend};

/// Encode a `MALLOC_DEVICE` request body for `queue` and `size`.
fn malloc_body(queue: proto::Handle, size: u64) -> Vec<u8> {
    let mut body = Vec::new();
    proto::sycl::MallocDeviceRequest { queue, size }.encode(&mut body);
    body
}

/// Encode a `FREE` request body for `ptr`.
fn free_body(ptr: proto::Handle) -> Vec<u8> {
    let mut body = Vec::new();
    proto::sycl::FreeRequest { ptr }.encode(&mut body);
    body
}

/// Drive a backend through `QUEUE_CREATE`, returning the minted queue
/// handle.
fn create_queue(backend: &mut SyclBackend) -> proto::Handle {
    let resp = backend
        .handle(proto::sycl_op::QUEUE_CREATE, 1, &[])
        .expect("queue create should succeed");
    proto::sycl::QueueCreateResponse::decode(&resp)
        .expect("decode queue create response")
        .queue
}

/// Drive a backend through `QUEUE_CREATE` then `MALLOC_DEVICE`, returning
/// the minted device-pointer handle.
fn alloc_one(backend: &mut SyclBackend) -> proto::Handle {
    let queue = create_queue(backend);
    let resp = backend
        .handle(proto::sycl_op::MALLOC_DEVICE, 2, &malloc_body(queue, 4096))
        .expect("malloc device should succeed");
    proto::sycl::MallocDeviceResponse::decode(&resp)
        .expect("decode malloc device response")
        .ptr
}

#[test]
fn queue_create_returns_kind_ninety() {
    let mut backend = SyclBackend::new();
    let resp = backend
        .handle(proto::sycl_op::QUEUE_CREATE, 1, &[])
        .expect("queue create should succeed");

    let decoded = proto::sycl::QueueCreateResponse::decode(&resp).expect("decode response");
    assert_eq!(decoded.queue.kind(), KIND_SYCL_QUEUE);
    // The returned handle must resolve in the queue table.
    assert!(backend.queues.get(decoded.queue).is_some());
}

#[test]
fn malloc_after_queue_returns_kind_ninety_one() {
    let mut backend = SyclBackend::new();
    let queue = create_queue(&mut backend);

    let resp = backend
        .handle(proto::sycl_op::MALLOC_DEVICE, 2, &malloc_body(queue, 1024))
        .expect("malloc device should succeed");

    let decoded = proto::sycl::MallocDeviceResponse::decode(&resp).expect("decode response");
    assert_eq!(decoded.ptr.kind(), KIND_SYCL_DEVICE_PTR);
    let state = backend.ptrs.get(decoded.ptr).expect("ptr state present");
    assert_eq!(state.queue.raw(), queue.raw());
    assert_eq!(state.size, 1024);
}

#[test]
fn malloc_with_bogus_queue_errors() {
    let mut backend = SyclBackend::new();
    // A handle that was never issued by this backend.
    let bogus = proto::Handle::new(KIND_SYCL_QUEUE, 0, 999);
    let err = backend
        .handle(proto::sycl_op::MALLOC_DEVICE, 1, &malloc_body(bogus, 1024))
        .expect_err("malloc with bogus queue must error");
    assert!(matches!(err, proto::ProtocolError::UnknownOpcode(_)));
}

#[test]
fn free_of_live_ptr_succeeds() {
    let mut backend = SyclBackend::new();
    let ptr = alloc_one(&mut backend);

    let resp = backend
        .handle(proto::sycl_op::FREE, 3, &free_body(ptr))
        .expect("free should succeed");
    // The reply is an empty ack body.
    assert!(resp.is_empty());
    // The allocation must no longer resolve.
    assert!(backend.ptrs.get(ptr).is_none());
}

#[test]
fn free_of_bogus_ptr_errors() {
    let mut backend = SyclBackend::new();
    // A handle that was never created by this backend.
    let bogus = proto::Handle::new(KIND_SYCL_DEVICE_PTR, 0, 999);
    let err = backend
        .handle(proto::sycl_op::FREE, 1, &free_body(bogus))
        .expect_err("free with bogus ptr must error");
    assert!(matches!(err, proto::ProtocolError::UnknownOpcode(_)));
}

#[test]
fn free_of_already_freed_ptr_errors() {
    let mut backend = SyclBackend::new();
    let ptr = alloc_one(&mut backend);

    backend
        .handle(proto::sycl_op::FREE, 3, &free_body(ptr))
        .expect("first free should succeed");

    let err = backend
        .handle(proto::sycl_op::FREE, 4, &free_body(ptr))
        .expect_err("second free must error");
    assert!(matches!(err, proto::ProtocolError::UnknownOpcode(_)));
}

#[test]
fn sycl_backend_out_of_namespace_opcode_errors() {
    let mut backend = SyclBackend::new();
    // Opcode 0 is a core opcode, not in the SYCL namespace.
    let err = backend
        .handle(0, 1, &[])
        .expect_err("non-sycl opcode must error");
    assert!(matches!(err, proto::ProtocolError::UnknownOpcode(0)));
}
