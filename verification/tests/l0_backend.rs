//! L0 backend.
use graftx::protocol as proto;
use graftx::server::l0_backend::{KIND_L0_CONTEXT, KIND_L0_DEVICE_MEM};
use graftx::server::{Backend, L0Backend};

/// Encode a `MEM_ALLOC_DEVICE` request body for `context` and `size`.
fn mem_alloc_body(context: proto::Handle, size: u64) -> Vec<u8> {
    let mut body = Vec::new();
    proto::l0::MemAllocDeviceRequest { context, size }.encode(&mut body);
    body
}

/// Encode a `MEM_FREE` request body for `ptr`.
fn mem_free_body(ptr: proto::Handle) -> Vec<u8> {
    let mut body = Vec::new();
    proto::l0::MemFreeRequest { ptr }.encode(&mut body);
    body
}

/// Drive a backend through `CONTEXT_CREATE`, returning the minted context
/// handle.
fn create_context(backend: &mut L0Backend) -> proto::Handle {
    let resp = backend
        .handle(proto::l0_op::CONTEXT_CREATE, 1, &[])
        .expect("context create should succeed");
    proto::l0::ContextCreateResponse::decode(&resp)
        .expect("decode context create response")
        .context
}

/// Drive a backend through `CONTEXT_CREATE` then `MEM_ALLOC_DEVICE`,
/// returning the minted device-memory handle.
fn alloc_one(backend: &mut L0Backend) -> proto::Handle {
    let context = create_context(backend);
    let resp = backend
        .handle(
            proto::l0_op::MEM_ALLOC_DEVICE,
            2,
            &mem_alloc_body(context, 4096),
        )
        .expect("mem alloc should succeed");
    proto::l0::MemAllocDeviceResponse::decode(&resp)
        .expect("decode mem alloc response")
        .ptr
}

#[test]
fn context_create_returns_kind_fifty() {
    let mut backend = L0Backend::new();
    let resp = backend
        .handle(proto::l0_op::CONTEXT_CREATE, 1, &[])
        .expect("context create should succeed");

    let decoded = proto::l0::ContextCreateResponse::decode(&resp).expect("decode response");
    assert_eq!(decoded.context.kind(), KIND_L0_CONTEXT);
    // The returned handle must resolve in the context table.
    assert!(backend.contexts.get(decoded.context).is_some());
}

#[test]
fn mem_alloc_after_context_returns_kind_fifty_one() {
    let mut backend = L0Backend::new();
    let context = create_context(&mut backend);

    let resp = backend
        .handle(
            proto::l0_op::MEM_ALLOC_DEVICE,
            2,
            &mem_alloc_body(context, 1024),
        )
        .expect("mem alloc should succeed");

    let decoded = proto::l0::MemAllocDeviceResponse::decode(&resp).expect("decode response");
    assert_eq!(decoded.ptr.kind(), KIND_L0_DEVICE_MEM);
    let state = backend.mems.get(decoded.ptr).expect("mem state present");
    assert_eq!(state.context.raw(), context.raw());
    assert_eq!(state.size, 1024);
}

#[test]
fn l0_backend_mem_alloc_with_bogus_context_errors() {
    let mut backend = L0Backend::new();
    // A handle that was never issued by this backend.
    let bogus = proto::Handle::new(KIND_L0_CONTEXT, 0, 999);
    let err = backend
        .handle(
            proto::l0_op::MEM_ALLOC_DEVICE,
            1,
            &mem_alloc_body(bogus, 1024),
        )
        .expect_err("mem alloc with bogus context must error");
    assert!(matches!(err, proto::ProtocolError::UnknownOpcode(_)));
}

#[test]
fn mem_free_of_live_ptr_succeeds() {
    let mut backend = L0Backend::new();
    let ptr = alloc_one(&mut backend);

    let resp = backend
        .handle(proto::l0_op::MEM_FREE, 3, &mem_free_body(ptr))
        .expect("mem free should succeed");
    // The reply is an empty ack body.
    assert!(resp.is_empty());
    // The allocation must no longer resolve.
    assert!(backend.mems.get(ptr).is_none());
}

#[test]
fn mem_free_of_bogus_ptr_errors() {
    let mut backend = L0Backend::new();
    // A handle that was never created by this backend.
    let bogus = proto::Handle::new(KIND_L0_DEVICE_MEM, 0, 999);
    let err = backend
        .handle(proto::l0_op::MEM_FREE, 1, &mem_free_body(bogus))
        .expect_err("mem free with bogus ptr must error");
    assert!(matches!(err, proto::ProtocolError::UnknownOpcode(_)));
}

#[test]
fn mem_free_of_already_freed_ptr_errors() {
    let mut backend = L0Backend::new();
    let ptr = alloc_one(&mut backend);

    backend
        .handle(proto::l0_op::MEM_FREE, 3, &mem_free_body(ptr))
        .expect("first free should succeed");

    let err = backend
        .handle(proto::l0_op::MEM_FREE, 4, &mem_free_body(ptr))
        .expect_err("second free must error");
    assert!(matches!(err, proto::ProtocolError::UnknownOpcode(_)));
}

#[test]
fn l0_backend_out_of_namespace_opcode_errors() {
    let mut backend = L0Backend::new();
    // Opcode 0 is a core opcode, not in the Level Zero namespace.
    let err = backend
        .handle(0, 1, &[])
        .expect_err("non-level-zero opcode must error");
    assert!(matches!(err, proto::ProtocolError::UnknownOpcode(0)));
}
