//! WebGpu backend.
use graftx::protocol as proto;
use graftx::server::wgpu_backend::{KIND_WGPU_BUFFER, KIND_WGPU_DEVICE};
use graftx::server::{Backend, WebGpuBackend};

/// Encode a `CREATE_BUFFER` request body for `device`, `size`, and `usage`.
fn create_buffer_body(device: proto::Handle, size: u64, usage: u32) -> Vec<u8> {
    let mut body = Vec::new();
    proto::wgpu::CreateBufferRequest {
        device,
        size,
        usage,
    }
    .encode(&mut body);
    body
}

/// Encode a `DESTROY_BUFFER` request body for `buffer`.
fn destroy_buffer_body(buffer: proto::Handle) -> Vec<u8> {
    let mut body = Vec::new();
    proto::wgpu::DestroyBufferRequest { buffer }.encode(&mut body);
    body
}

/// Drive a backend through `REQUEST_DEVICE`, returning the minted device
/// handle.
fn request_device(backend: &mut WebGpuBackend) -> proto::Handle {
    let resp = backend
        .handle(proto::wgpu_op::REQUEST_DEVICE, 1, &[])
        .expect("request device should succeed");
    proto::wgpu::RequestDeviceResponse::decode(&resp)
        .expect("decode request device response")
        .device
}

/// Drive a backend through `REQUEST_DEVICE` then `CREATE_BUFFER`, returning
/// the minted buffer handle.
fn create_one_buffer(backend: &mut WebGpuBackend) -> proto::Handle {
    let device = request_device(backend);
    let resp = backend
        .handle(
            proto::wgpu_op::CREATE_BUFFER,
            2,
            &create_buffer_body(device, 4096, 0),
        )
        .expect("create buffer should succeed");
    proto::wgpu::CreateBufferResponse::decode(&resp)
        .expect("decode create buffer response")
        .buffer
}

#[test]
fn request_device_returns_kind_seventy() {
    let mut backend = WebGpuBackend::new();
    let resp = backend
        .handle(proto::wgpu_op::REQUEST_DEVICE, 1, &[])
        .expect("request device should succeed");

    let decoded = proto::wgpu::RequestDeviceResponse::decode(&resp).expect("decode response");
    assert_eq!(decoded.device.kind(), KIND_WGPU_DEVICE);
    // The returned handle must resolve in the device table.
    assert!(backend.devices.get(decoded.device).is_some());
}

#[test]
fn create_buffer_after_device_returns_kind_seventy_one() {
    let mut backend = WebGpuBackend::new();
    let device = request_device(&mut backend);

    let resp = backend
        .handle(
            proto::wgpu_op::CREATE_BUFFER,
            2,
            &create_buffer_body(device, 1024, 8),
        )
        .expect("create buffer should succeed");

    let decoded = proto::wgpu::CreateBufferResponse::decode(&resp).expect("decode response");
    assert_eq!(decoded.buffer.kind(), KIND_WGPU_BUFFER);
    let state = backend
        .buffers
        .get(decoded.buffer)
        .expect("buffer state present");
    assert_eq!(state.device.raw(), device.raw());
    assert_eq!(state.size, 1024);
    assert_eq!(state.usage, 8);
}

#[test]
fn create_buffer_with_bogus_device_errors() {
    let mut backend = WebGpuBackend::new();
    // A handle that was never issued by this backend.
    let bogus = proto::Handle::new(KIND_WGPU_DEVICE, 0, 999);
    let err = backend
        .handle(
            proto::wgpu_op::CREATE_BUFFER,
            1,
            &create_buffer_body(bogus, 1024, 0),
        )
        .expect_err("create buffer with bogus device must error");
    assert!(matches!(err, proto::ProtocolError::UnknownOpcode(_)));
}

#[test]
fn destroy_buffer_of_live_buffer_succeeds() {
    let mut backend = WebGpuBackend::new();
    let buffer = create_one_buffer(&mut backend);

    let resp = backend
        .handle(
            proto::wgpu_op::DESTROY_BUFFER,
            3,
            &destroy_buffer_body(buffer),
        )
        .expect("destroy buffer should succeed");
    // The reply is an empty ack body.
    assert!(resp.is_empty());
    // The buffer must no longer resolve.
    assert!(backend.buffers.get(buffer).is_none());
}

#[test]
fn destroy_buffer_of_bogus_buffer_errors() {
    let mut backend = WebGpuBackend::new();
    // A handle that was never created by this backend.
    let bogus = proto::Handle::new(KIND_WGPU_BUFFER, 0, 999);
    let err = backend
        .handle(
            proto::wgpu_op::DESTROY_BUFFER,
            1,
            &destroy_buffer_body(bogus),
        )
        .expect_err("destroy buffer with bogus buffer must error");
    assert!(matches!(err, proto::ProtocolError::UnknownOpcode(_)));
}

#[test]
fn destroy_buffer_of_already_destroyed_buffer_errors() {
    let mut backend = WebGpuBackend::new();
    let buffer = create_one_buffer(&mut backend);

    backend
        .handle(
            proto::wgpu_op::DESTROY_BUFFER,
            3,
            &destroy_buffer_body(buffer),
        )
        .expect("first destroy buffer should succeed");

    let err = backend
        .handle(
            proto::wgpu_op::DESTROY_BUFFER,
            4,
            &destroy_buffer_body(buffer),
        )
        .expect_err("second destroy buffer must error");
    assert!(matches!(err, proto::ProtocolError::UnknownOpcode(_)));
}

#[test]
fn wgpu_backend_out_of_namespace_opcode_errors() {
    let mut backend = WebGpuBackend::new();
    // Opcode 0 is a core opcode, not in the WebGPU namespace.
    let err = backend
        .handle(0, 1, &[])
        .expect_err("non-webgpu opcode must error");
    assert!(matches!(err, proto::ProtocolError::UnknownOpcode(0)));
}
