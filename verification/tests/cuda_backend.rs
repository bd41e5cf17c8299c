//! Cuda backend.
use graftx::protocol as proto;
use graftx::server::cuda_backend::{KIND_CUDA_CONTEXT, KIND_CUDA_DEVICE_PTR};
use graftx::server::{Backend, CudaBackend};

/// Encode a `CTX_CREATE` request body for `device_ordinal`.
fn ctx_create_body(device_ordinal: u32) -> Vec<u8> {
    let mut body = Vec::new();
    proto::cuda::CtxCreateRequest { device_ordinal }.encode(&mut body);
    body
}

/// Encode a `MEM_ALLOC` request body for `context` and `size`.
fn mem_alloc_body(context: proto::Handle, size: u64) -> Vec<u8> {
    let mut body = Vec::new();
    proto::cuda::MemAllocRequest { context, size }.encode(&mut body);
    body
}

/// Encode a `MEM_FREE` request body for `dptr`.
fn mem_free_body(dptr: proto::Handle) -> Vec<u8> {
    let mut body = Vec::new();
    proto::cuda::MemFreeRequest { dptr }.encode(&mut body);
    body
}

/// Drive a backend through `CTX_CREATE`, returning the minted context handle.
fn create_context(backend: &mut CudaBackend) -> proto::Handle {
    let resp = backend
        .handle(proto::cuda_op::CTX_CREATE, 1, &ctx_create_body(0))
        .expect("ctx create should succeed");
    proto::cuda::CtxCreateResponse::decode(&resp)
        .expect("decode ctx create response")
        .context
}

/// Drive a backend through `CTX_CREATE` then `MEM_ALLOC`, returning the
/// minted device-pointer handle.
fn alloc_one(backend: &mut CudaBackend) -> proto::Handle {
    let context = create_context(backend);
    let resp = backend
        .handle(proto::cuda_op::MEM_ALLOC, 2, &mem_alloc_body(context, 4096))
        .expect("mem alloc should succeed");
    proto::cuda::MemAllocResponse::decode(&resp)
        .expect("decode mem alloc response")
        .dptr
}

#[test]
fn ctx_create_returns_kind_twenty() {
    let mut backend = CudaBackend::new();
    let resp = backend
        .handle(proto::cuda_op::CTX_CREATE, 1, &ctx_create_body(3))
        .expect("ctx create should succeed");

    let decoded = proto::cuda::CtxCreateResponse::decode(&resp).expect("decode response");
    assert_eq!(decoded.context.kind(), KIND_CUDA_CONTEXT);
    // The returned handle must resolve in the context table.
    let state = backend
        .contexts
        .get(decoded.context)
        .expect("context state present");
    assert_eq!(state.device_ordinal, 3);
}

#[test]
fn mem_alloc_after_ctx_returns_kind_twenty_one() {
    let mut backend = CudaBackend::new();
    let context = create_context(&mut backend);

    let resp = backend
        .handle(proto::cuda_op::MEM_ALLOC, 2, &mem_alloc_body(context, 1024))
        .expect("mem alloc should succeed");

    let decoded = proto::cuda::MemAllocResponse::decode(&resp).expect("decode response");
    assert_eq!(decoded.dptr.kind(), KIND_CUDA_DEVICE_PTR);
    let state = backend
        .allocations
        .get(decoded.dptr)
        .expect("allocation state present");
    assert_eq!(state.context.raw(), context.raw());
    assert_eq!(state.size, 1024);
}

#[test]
fn cuda_backend_mem_alloc_with_bogus_context_errors() {
    let mut backend = CudaBackend::new();
    // A handle that was never issued by this backend.
    let bogus = proto::Handle::new(KIND_CUDA_CONTEXT, 0, 999);
    let err = backend
        .handle(proto::cuda_op::MEM_ALLOC, 1, &mem_alloc_body(bogus, 1024))
        .expect_err("mem alloc with bogus context must error");
    assert!(matches!(err, proto::ProtocolError::UnknownOpcode(_)));
}

#[test]
fn mem_free_of_live_dptr_succeeds() {
    let mut backend = CudaBackend::new();
    let dptr = alloc_one(&mut backend);

    let resp = backend
        .handle(proto::cuda_op::MEM_FREE, 3, &mem_free_body(dptr))
        .expect("mem free should succeed");
    // The reply is an empty ack body.
    assert!(resp.is_empty());
    // The allocation must no longer resolve.
    assert!(backend.allocations.get(dptr).is_none());
}

#[test]
fn mem_free_of_bogus_dptr_errors() {
    let mut backend = CudaBackend::new();
    // A handle that was never allocated by this backend.
    let bogus = proto::Handle::new(KIND_CUDA_DEVICE_PTR, 0, 999);
    let err = backend
        .handle(proto::cuda_op::MEM_FREE, 1, &mem_free_body(bogus))
        .expect_err("mem free with bogus dptr must error");
    assert!(matches!(err, proto::ProtocolError::UnknownOpcode(_)));
}

#[test]
fn mem_free_of_already_freed_dptr_errors() {
    let mut backend = CudaBackend::new();
    let dptr = alloc_one(&mut backend);

    backend
        .handle(proto::cuda_op::MEM_FREE, 3, &mem_free_body(dptr))
        .expect("first mem free should succeed");

    let err = backend
        .handle(proto::cuda_op::MEM_FREE, 4, &mem_free_body(dptr))
        .expect_err("second mem free must error");
    assert!(matches!(err, proto::ProtocolError::UnknownOpcode(_)));
}

#[test]
fn cuda_backend_out_of_namespace_opcode_errors() {
    let mut backend = CudaBackend::new();
    // Opcode 0 is a core opcode, not in the CUDA namespace.
    let err = backend
        .handle(0, 1, &[])
        .expect_err("non-cuda opcode must error");
    assert!(matches!(err, proto::ProtocolError::UnknownOpcode(0)));
}
