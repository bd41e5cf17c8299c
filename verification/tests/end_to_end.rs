//! Whole exchanges: the client's requests, the session's replies, and what the client reads
//! back from them.
use graftx::client;
use graftx::client::{amf, cl, cuda, gl, hip, l0, optix, sycl, video, vk, wgpu};
use graftx::protocol as proto;
use graftx::server::{
    AmfBackend, ClBackend, CudaBackend, GlBackend, HipBackend, L0Backend,
    OptixBackend, SyclBackend, VideoBackend, VulkanBackend, WebGpuBackend, Session,
};

/// Let the session handle one request frame, and return its reply.
fn call(server: &mut Session, request: &[u8]) -> Vec<u8> {
    server.handle(request).expect("server handle")
}

#[test]
fn handshake_then_noop_roundtrip() {
    let mut server = Session::new(0xABCD_1234);

    // Client: handshake, then a no-op.
    let welcome = client::handshake_reply(&call(
        &mut server,
        &client::handshake_request(),
    ))
    .expect("handshake");
    assert_eq!(welcome.session_id, 0xABCD_1234);
    assert_eq!(welcome.proto_major, proto::PROTOCOL_MAJOR);
    assert_eq!(welcome.max_frame_body, proto::DEFAULT_MAX_FRAME_BODY);

    client::noop_reply(&call(&mut server, &client::noop_request(2, 2))).expect("noop round-trip");

    let id = server.session_id;
    assert_eq!(id, 0xABCD_1234);
}

#[test]
fn handshake_create_context_create_buffer_then_release() {
    let mut server = Session::new(0x0040_0000);
    server.register(Box::new(ClBackend::new()));

    // Client: complete the handshake first.
    let welcome = client::handshake_reply(&call(
        &mut server,
        &client::handshake_request(),
    ))
    .expect("handshake");
    assert_eq!(welcome.session_id, 0x0040_0000);

    // Create a context, allocate a buffer in it, then release the buffer.
    let context = cl::create_context_reply(&call(
        &mut server,
        &cl::create_context_request(1, 1),
    ))
    .expect("create context");
    // The context must name an OpenCL context (server kind 40).
    assert_eq!(context.kind(), 40);

    let mem = cl::create_buffer_reply(&call(
        &mut server,
        &cl::create_buffer_request(context, 4096, 2, 2),
    ))
    .expect("create buffer");
    // The buffer must name an OpenCL memory buffer (server kind 41).
    assert_eq!(mem.kind(), 41);

    let released = cl::release_buffer_reply(&call(
        &mut server,
        &cl::release_buffer_request(mem, 3, 3),
    ));
    assert!(released.is_ok(), "release_buffer must return Ok(())");
    released.expect("release buffer");
}

#[test]
fn e2e_cuda_handshake_ctx_create_mem_alloc_then_mem_free() {
    let mut server = Session::new(0x00CA_FE00);
    server.register(Box::new(CudaBackend::new()));

    // Client: complete the handshake first.
    let welcome = client::handshake_reply(&call(
        &mut server,
        &client::handshake_request(),
    ))
    .expect("handshake");
    assert_eq!(welcome.session_id, 0x00CA_FE00);

    // Create a context on device 0.
    let ctx = cuda::ctx_create_reply(&call(
        &mut server,
        &cuda::ctx_create_request(0, 2, 2),
    ))
    .expect("ctx create");
    // The context must name a `CudaContext` (server kind 20).
    assert_eq!(ctx.kind(), 20);

    // Allocate a 1 MiB device buffer in that context.
    let dptr = cuda::mem_alloc_reply(&call(
        &mut server,
        &cuda::mem_alloc_request(ctx, 1 << 20, 3, 3),
    ))
    .expect("mem alloc");
    // The device pointer must name a `CudaDevicePtr` (server kind 21).
    assert_eq!(dptr.kind(), 21);

    // Free the device buffer; the backend acks with an empty body and the
    // client surfaces a unit `Ok(())`.
    let freed: Result<(), client::ClientError> = cuda::mem_free_reply(&call(
        &mut server,
        &cuda::mem_free_request(dptr, 4, 4),
    ));
    assert!(freed.is_ok());
}

#[test]
fn handshake_create_context_make_current_then_gen_buffer() {
    let mut server = Session::new(0x0061_0000);
    server.register(Box::new(GlBackend::new()));

    // Client: complete the handshake first.
    let welcome = client::handshake_reply(&call(
        &mut server,
        &client::handshake_request(),
    ))
    .expect("handshake");
    assert_eq!(welcome.session_id, 0x0061_0000);

    // Create a context, make it current, then generate a buffer in it.
    let context = gl::create_context_reply(&call(
        &mut server,
        &gl::create_context_request(2, 2),
    ))
    .expect("create context");
    // The context must name a GL context (server kind 10).
    assert_eq!(context.kind(), 10);

    gl::make_current_reply(&call(
        &mut server,
        &gl::make_current_request(context, 3, 3),
    ))
    .expect("make current");

    let buffer = gl::gen_buffer_reply(&call(
        &mut server,
        &gl::gen_buffer_request(context, 4, 4),
    ))
    .expect("gen buffer");
    // The buffer must name a GL buffer (server kind 11).
    assert_eq!(buffer.kind(), 11);
}

#[test]
fn handshake_malloc_stream_create_then_free() {
    let mut server = Session::new(0x00B1_AC00);
    server.register(Box::new(HipBackend::new()));

    // Client: complete the handshake first.
    let welcome = client::handshake_reply(&call(
        &mut server,
        &client::handshake_request(),
    ))
    .expect("handshake");
    assert_eq!(welcome.session_id, 0x00B1_AC00);

    // Allocate a 1 MiB device buffer.
    let dptr = hip::malloc_reply(&call(
        &mut server,
        &hip::malloc_request(1 << 20, 1, 1),
    ))
    .expect("malloc");
    // The device pointer must name a `HipDevicePtr` (server kind 30).
    assert_eq!(dptr.kind(), 30);

    // Create a stream.
    let stream = hip::stream_create_reply(&call(
        &mut server,
        &hip::stream_create_request(2, 2),
    ))
    .expect("stream create");
    // The stream must name a `HipStream` (server kind 31).
    assert_eq!(stream.kind(), 31);

    // Free the device buffer; the backend acks with an empty body and the
    // client surfaces a unit `Ok(())`.
    let freed: Result<(), client::ClientError> = hip::free_reply(&call(
        &mut server,
        &hip::free_request(dptr, 3, 3),
    ));
    assert!(freed.is_ok());
}

#[test]
fn e2e_l0_handshake_ctx_create_mem_alloc_then_mem_free() {
    let mut server = Session::new(0x0000_0E00);
    server.register(Box::new(L0Backend::new()));

    // Client: complete the handshake first.
    let welcome = client::handshake_reply(&call(
        &mut server,
        &client::handshake_request(),
    ))
    .expect("handshake");
    assert_eq!(welcome.session_id, 0x0000_0E00);

    // Create a Level Zero context.
    let ctx = l0::context_create_reply(&call(
        &mut server,
        &l0::context_create_request(2, 2),
    ))
    .expect("context create");
    // The context must name an `L0Context` (server kind 50).
    assert_eq!(ctx.kind(), 50);

    // Allocate a 1 MiB device buffer in that context.
    let ptr = l0::mem_alloc_device_reply(&call(
        &mut server,
        &l0::mem_alloc_device_request(ctx, 1 << 20, 3, 3),
    ))
    .expect("mem alloc device");
    // The device pointer must name an `L0DeviceMem` (server kind 51).
    assert_eq!(ptr.kind(), 51);

    // Free the device buffer; the backend acks with an empty body and the
    // client surfaces a unit `Ok(())`.
    let freed: Result<(), client::ClientError> = l0::mem_free_reply(&call(
        &mut server,
        &l0::mem_free_request(ptr, 4, 4),
    ));
    assert!(freed.is_ok());
}

#[test]
fn one_session_routes_each_api_to_its_backend() {
    let mut server = Session::new(0x00_4D_55_4C);
    server.register(Box::new(VulkanBackend::new()));
    server.register(Box::new(GlBackend::new()));
    server.register(Box::new(CudaBackend::new()));
    server.register(Box::new(WebGpuBackend::new()));

    // Client: complete the handshake first.
    let welcome = client::handshake_reply(&call(
        &mut server,
        &client::handshake_request(),
    ))
    .expect("handshake");
    assert_eq!(welcome.session_id, 0x00_4D_55_4C);

    // Vulkan: create an instance -> server kind 1 (`VkInstance`).
    let instance = vk::create_instance_reply(&call(
        &mut server,
        &vk::create_instance_request(0, 2, 2),
    ))
    .expect("vk instance");
    assert_eq!(instance.kind(), 1);

    // OpenGL: create a context -> server kind 10 (`GlContext`).
    let gl_ctx = gl::create_context_reply(&call(
        &mut server,
        &gl::create_context_request(3, 3),
    ))
    .expect("gl context");
    assert_eq!(gl_ctx.kind(), 10);

    // CUDA: create a context on device 0 -> server kind 20 (`CudaContext`).
    let cuda_ctx = cuda::ctx_create_reply(&call(
        &mut server,
        &cuda::ctx_create_request(0, 4, 4),
    ))
    .expect("cuda ctx");
    assert_eq!(cuda_ctx.kind(), 20);

    // WebGPU: request a device -> server kind 70 (`WgpuDevice`).
    let wgpu_dev = wgpu::request_device_reply(&call(
        &mut server,
        &wgpu::request_device_request(5, 5),
    ))
    .expect("wgpu device");
    assert_eq!(wgpu_dev.kind(), 70);
}

#[test]
fn one_session_exercises_optix_sycl_amf() {
    let mut server = Session::new(0x00_47_46_58);
    server.register(Box::new(OptixBackend::new()));
    server.register(Box::new(SyclBackend::new()));
    server.register(Box::new(AmfBackend::new()));

    // Client: complete the handshake first.
    let welcome = client::handshake_reply(&call(
        &mut server,
        &client::handshake_request(),
    ))
    .expect("handshake");
    assert_eq!(welcome.session_id, 0x00_47_46_58);

    // OptiX: create a context -> kind 80, then a pipeline in it -> kind 81,
    // then destroy the pipeline.
    let optix_ctx = optix::context_create_reply(&call(
        &mut server,
        &optix::context_create_request(2, 2),
    ))
    .expect("optix context");
    assert_eq!(optix_ctx.kind(), 80);
    let optix_pipeline = optix::pipeline_create_reply(&call(
        &mut server,
        &optix::pipeline_create_request(optix_ctx, 3, 3),
    ))
    .expect("optix pipeline");
    assert_eq!(optix_pipeline.kind(), 81);
    optix::destroy_reply(&call(
        &mut server,
        &optix::destroy_request(optix_pipeline, 4, 4),
    ))
    .expect("optix destroy");

    // SYCL: create a queue -> kind 90, allocate device memory on it -> kind 91,
    // then free it.
    let sycl_queue = sycl::queue_create_reply(&call(
        &mut server,
        &sycl::queue_create_request(5, 5),
    ))
    .expect("sycl queue");
    assert_eq!(sycl_queue.kind(), 90);
    let sycl_ptr = sycl::malloc_device_reply(&call(
        &mut server,
        &sycl::malloc_device_request(sycl_queue, 4096, 6, 6),
    ))
    .expect("sycl ptr");
    assert_eq!(sycl_ptr.kind(), 91);
    sycl::free_reply(&call(&mut server, &sycl::free_request(sycl_ptr, 7, 7))).expect("sycl free");

    // AMF: create an encoder -> kind 100, encode one frame (the packet length
    // echoes the submitted frame length), then destroy the encoder.
    let amf_encoder = amf::create_encoder_reply(&call(
        &mut server,
        &amf::create_encoder_request(1, 1920, 1080, 8, 8),
    ))
    .expect("amf encoder");
    assert_eq!(amf_encoder.kind(), 100);
    let packet_len = amf::encode_frame_reply(&call(
        &mut server,
        &amf::encode_frame_request(amf_encoder, 65536, 9, 9),
    ))
    .expect("amf encode");
    assert_eq!(packet_len, 65536);
    amf::destroy_encoder_reply(&call(
        &mut server,
        &amf::destroy_encoder_request(amf_encoder, 10, 10),
    ))
    .expect("amf destroy");
}

#[test]
fn handshake_create_session_decode_two_frames_then_destroy() {
    let mut server = Session::new(0x00_5D_E0_00);
    server.register(Box::new(VideoBackend::new()));

    // Client: complete the handshake first.
    let welcome = client::handshake_reply(&call(
        &mut server,
        &client::handshake_request(),
    ))
    .expect("handshake");
    assert_eq!(welcome.session_id, 0x00_5D_E0_00);

    // Create a decode session for codec 0 at 1920x1080.
    let session = video::create_decode_session_reply(&call(
        &mut server,
        &video::create_decode_session_request(0, 1920, 1080, 2, 2),
    ))
    .expect("create decode session");
    // The session handle must name a video session (server kind 60).
    assert_eq!(session.kind(), 60);

    // Decode two frames; indices ascend from 0.
    let first = video::decode_frame_reply(&call(
        &mut server,
        &video::decode_frame_request(session, 1024, 3, 3),
    ))
    .expect("decode frame 1");
    assert_eq!(first, 0);
    let second = video::decode_frame_reply(&call(
        &mut server,
        &video::decode_frame_request(session, 1024, 4, 4),
    ))
    .expect("decode frame 2");
    assert_eq!(second, 1);

    // Destroy the session; the ack maps to `Ok(())`.
    let destroyed = video::destroy_session_reply(&call(
        &mut server,
        &video::destroy_session_request(session, 5, 5),
    ));
    assert_eq!(destroyed.expect("destroy session"), ());
}

#[test]
fn handshake_create_instance_enumerate_create_device_then_get_queue() {
    let mut server = Session::new(0x00CA_FE00);
    server.register(Box::new(VulkanBackend::new()));

    // Client: complete the handshake first.
    let welcome = client::handshake_reply(&call(
        &mut server,
        &client::handshake_request(),
    ))
    .expect("handshake");
    assert_eq!(welcome.session_id, 0x00CA_FE00);

    // Create an instance, then enumerate physical devices on it.
    let instance = vk::create_instance_reply(&call(
        &mut server,
        &vk::create_instance_request(0, 2, 2),
    ))
    .expect("create instance");
    let devices = vk::enumerate_physical_devices_reply(&call(
        &mut server,
        &vk::enumerate_physical_devices_request(instance, 3, 3),
    ))
    .expect("enumerate physical devices");
    assert_eq!(devices.len(), 1);
    // The single device must name a `VkPhysicalDevice` (server kind 2).
    assert_eq!(devices[0].kind(), 2);

    // Create a logical device on the first physical device, then fetch its
    // first queue (family 0, index 0).
    let device = vk::create_device_reply(&call(
        &mut server,
        &vk::create_device_request(devices[0], 4, 4),
    ))
    .expect("create device");
    // The logical device must name a `VkDevice` (server kind 3).
    assert_eq!(device.kind(), 3);
    let queue = vk::get_device_queue_reply(&call(
        &mut server,
        &vk::get_device_queue_request(device, 0, 0, 5, 5),
    ))
    .expect("get device queue");
    // The queue must name a `VkQueue` (server kind 4).
    assert_eq!(queue.kind(), 4);
}

#[test]
fn handshake_allocate_memory_create_buffer_then_bind() {
    let mut server = Session::new(0x00CA_FE00);
    server.register(Box::new(VulkanBackend::new()));

    // Client: complete the handshake first.
    let welcome = client::handshake_reply(&call(
        &mut server,
        &client::handshake_request(),
    ))
    .expect("handshake");
    assert_eq!(welcome.session_id, 0x00CA_FE00);

    // Create an instance, then enumerate physical devices on it.
    let instance = vk::create_instance_reply(&call(
        &mut server,
        &vk::create_instance_request(0, 2, 2),
    ))
    .expect("create instance");
    let devices = vk::enumerate_physical_devices_reply(&call(
        &mut server,
        &vk::enumerate_physical_devices_request(instance, 3, 3),
    ))
    .expect("enumerate physical devices");
    assert_eq!(devices.len(), 1);

    // Create a logical device on the first physical device.
    let device = vk::create_device_reply(&call(
        &mut server,
        &vk::create_device_request(devices[0], 4, 4),
    ))
    .expect("create device");

    // Allocate device memory, create a buffer, then bind the memory to it.
    let memory = vk::allocate_memory_reply(&call(
        &mut server,
        &vk::allocate_memory_request(device, 4096, 5, 5),
    ))
    .expect("allocate memory");
    // The allocation must name a `VkDeviceMemory` (server kind 5).
    assert_eq!(memory.kind(), 5);

    let buffer = vk::create_buffer_reply(&call(
        &mut server,
        &vk::create_buffer_request(device, 4096, 0, 6, 6),
    ))
    .expect("create buffer");
    // The buffer must name a `VkBuffer` (server kind 6).
    assert_eq!(buffer.kind(), 6);

    // Bind the memory to the buffer; the call must return `Ok(())`.
    let bind: Result<(), _> = vk::bind_buffer_memory_reply(&call(
        &mut server,
        &vk::bind_buffer_memory_request(buffer, memory, 0, 7, 7),
    ));
    assert!(bind.is_ok());
    bind.expect("bind buffer memory should succeed");
}

#[test]
fn handshake_request_device_create_buffer_then_destroy_buffer() {
    let mut server = Session::new(0x00_BE_EF_00);
    server.register(Box::new(WebGpuBackend::new()));

    // Client: complete the handshake first.
    let welcome = client::handshake_reply(&call(
        &mut server,
        &client::handshake_request(),
    ))
    .expect("handshake");
    assert_eq!(welcome.session_id, 0x00_BE_EF_00);

    // Request a logical device.
    let device = wgpu::request_device_reply(&call(
        &mut server,
        &wgpu::request_device_request(2, 2),
    ))
    .expect("request device");
    // The device must name a `WgpuDevice` (server kind 70).
    assert_eq!(device.kind(), 70);

    // Create a 4 KiB buffer on that device with no usage flags.
    let buffer = wgpu::create_buffer_reply(&call(
        &mut server,
        &wgpu::create_buffer_request(device, 4096, 0, 3, 3),
    ))
    .expect("create buffer");
    // The buffer must name a `WgpuBuffer` (server kind 71).
    assert_eq!(buffer.kind(), 71);

    // Destroy the buffer; the backend acks with an empty body and the client
    // surfaces a unit `Ok(())`.
    let destroyed: Result<(), client::ClientError> = wgpu::destroy_buffer_reply(&call(
        &mut server,
        &wgpu::destroy_buffer_request(buffer, 4, 4),
    ));
    assert!(destroyed.is_ok());
}
