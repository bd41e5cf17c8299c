//! Wire protocol: opcodes, frames, handles and message bodies.
use graftx::protocol::{
    amf, amf_op, cl, cl_op, core_op, cuda, cuda_op, gl, gl_op, hip, hip_op, l0, l0_op, optix,
    optix_op, sycl, sycl_op, video, video_op, vk, vk_op, wgpu, wgpu_op, decode_frame,
    encode_frame, opcode, opcode_api, opcode_call, ApiId, FrameHeader, FrameKind, Handle,
    Hello, ProtocolError, Welcome, DEFAULT_MAX_FRAME_BODY, HEADER_LEN, PROTOCOL_MAJOR,
};

#[test]
fn opcode_pack_unpack() {
    let op = opcode(ApiId::Vulkan, 0x0042);
    assert_eq!(op, 0x0100_0042);
    assert_eq!(opcode_api(op), ApiId::Vulkan as u8);
    assert_eq!(opcode_call(op), 0x0042);
}

#[test]
fn core_opcodes_are_in_core_namespace() {
    assert_eq!(opcode_api(core_op::HELLO), ApiId::Core as u8);
    assert_eq!(opcode_api(core_op::NOOP), ApiId::Core as u8);
}

#[test]
fn vk_opcodes_are_in_vulkan_namespace() {
    assert_eq!(opcode_api(vk_op::CREATE_INSTANCE), ApiId::Vulkan as u8);
    assert_ne!(vk_op::CREATE_INSTANCE, vk_op::DESTROY_INSTANCE);
}

#[test]
fn gl_opcodes_are_in_opengl_namespace() {
    assert_eq!(opcode_api(gl_op::CREATE_CONTEXT), ApiId::OpenGl as u8);
    assert_eq!(opcode_api(gl_op::MAKE_CURRENT), ApiId::OpenGl as u8);
    assert_eq!(opcode_api(gl_op::GEN_BUFFER), ApiId::OpenGl as u8);
    assert_ne!(gl_op::CREATE_CONTEXT, gl_op::MAKE_CURRENT);
    assert_ne!(gl_op::MAKE_CURRENT, gl_op::GEN_BUFFER);
}

#[test]
fn frame_header_roundtrip() {
    let h = FrameHeader {
        version: PROTOCOL_MAJOR,
        flags: 0,
        kind: FrameKind::Request,
        opcode: core_op::NOOP,
        req_id: 7,
        seq: 99,
        body_len: 0,
    };
    let mut buf = Vec::new();
    h.encode(&mut buf);
    assert_eq!(buf.len(), HEADER_LEN);
    let got = FrameHeader::decode(&buf).expect("decode");
    assert_eq!(got, h);
}

#[test]
fn hello_welcome_roundtrip() {
    let hello = Hello {
        proto_major: 0,
        proto_minor: 0,
        features: 0,
        max_frame_body: DEFAULT_MAX_FRAME_BODY,
    };
    let mut b = Vec::new();
    hello.encode(&mut b);
    assert_eq!(Hello::decode(&b).expect("hello"), hello);

    let welcome = Welcome {
        proto_major: 0,
        proto_minor: 0,
        features: 0,
        max_frame_body: DEFAULT_MAX_FRAME_BODY,
        session_id: 0xDEAD_BEEF,
    };
    let mut b = Vec::new();
    welcome.encode(&mut b);
    assert_eq!(Welcome::decode(&b).expect("welcome"), welcome);
}

#[test]
fn decode_frame_rejects_short_buffer() {
    assert_eq!(decode_frame(&[0u8; 4]), Err(ProtocolError::UnexpectedEof));
}

#[test]
fn handle_roundtrip() {
    let cases = [
        (0u8, 0u32, 0u32),
        (1, 1, 1),
        (0x7F, 0x00AB_CDEF & Handle::GENERATION_MAX, 0x1234_5678),
        (0xFF, Handle::GENERATION_MAX, u32::MAX),
        (0xFF, 0, 0),
        (0, Handle::GENERATION_MAX, 0),
        (0, 0, u32::MAX),
    ];
    for (kind, generation, slot) in cases {
        let h = Handle::new(kind, generation, slot);
        assert_eq!(h.kind(), kind, "kind for {h:?}");
        assert_eq!(h.generation(), generation, "generation for {h:?}");
        assert_eq!(h.slot(), slot, "slot for {h:?}");
        assert_eq!(Handle::from_raw(h.raw()), h, "raw roundtrip for {h:?}");
    }
}

#[test]
fn handle_generation_masked_to_24_bits() {
    // Generation bits above bit 24 must be discarded, not bleed into kind.
    let h = Handle::new(0xAB, 0xFFFF_FFFF, 0x9999_9999);
    assert_eq!(h.generation(), Handle::GENERATION_MAX);
    assert_eq!(h.kind(), 0xAB);
    assert_eq!(h.slot(), 0x9999_9999);

    // A generation one past the max wraps to 0 after masking.
    let h = Handle::new(0x12, Handle::GENERATION_MAX + 1, 0x0000_0001);
    assert_eq!(h.generation(), 0);
    assert_eq!(h.kind(), 0x12);
    assert_eq!(h.slot(), 1);
}

#[test]
fn handle_field_constants() {
    assert_eq!(Handle::KIND_BITS, 8);
    assert_eq!(Handle::GENERATION_BITS, 24);
    assert_eq!(Handle::SLOT_BITS, 32);
    assert_eq!(
        Handle::KIND_BITS + Handle::GENERATION_BITS + Handle::SLOT_BITS,
        64
    );
    assert_eq!(Handle::GENERATION_MAX, (1 << 24) - 1);
}

#[test]
fn vk_create_instance_roundtrip() {
    let req = vk::CreateInstanceRequest {
        app_api_version: 0x0040_3000,
    };
    let mut b = Vec::new();
    req.encode(&mut b);
    assert_eq!(b.len(), 4);
    assert_eq!(vk::CreateInstanceRequest::decode(&b).expect("req"), req);

    let resp = vk::CreateInstanceResponse {
        instance: Handle::new(1, 5, 42),
    };
    let mut b = Vec::new();
    resp.encode(&mut b);
    assert_eq!(b.len(), 8);
    assert_eq!(vk::CreateInstanceResponse::decode(&b).expect("resp"), resp);
}

#[test]
fn vk_enumerate_physical_devices_request_roundtrip() {
    let req = vk::EnumeratePhysicalDevicesRequest {
        instance: Handle::new(1, 3, 7),
    };
    let mut b = Vec::new();
    req.encode(&mut b);
    assert_eq!(b.len(), 8);
    assert_eq!(
        vk::EnumeratePhysicalDevicesRequest::decode(&b).expect("req"),
        req
    );
}

#[test]
fn vk_enumerate_physical_devices_response_empty() {
    let resp = vk::EnumeratePhysicalDevicesResponse { devices: vec![] };
    let mut b = Vec::new();
    resp.encode(&mut b);
    assert_eq!(b.len(), 4);
    assert_eq!(
        vk::EnumeratePhysicalDevicesResponse::decode(&b).expect("resp"),
        resp
    );
}

#[test]
fn vk_enumerate_physical_devices_response_three() {
    let resp = vk::EnumeratePhysicalDevicesResponse {
        devices: vec![
            Handle::new(2, 0, 0),
            Handle::new(2, 1, 1),
            Handle::new(2, Handle::GENERATION_MAX, u32::MAX),
        ],
    };
    let mut b = Vec::new();
    resp.encode(&mut b);
    assert_eq!(b.len(), 4 + 3 * 8);
    assert_eq!(
        vk::EnumeratePhysicalDevicesResponse::decode(&b).expect("resp"),
        resp
    );
}

#[test]
fn vk_bodies_reject_short_buffers() {
    assert_eq!(
        vk::CreateInstanceRequest::decode(&[0u8; 3]),
        Err(ProtocolError::UnexpectedEof)
    );
    assert_eq!(
        vk::CreateInstanceResponse::decode(&[0u8; 7]),
        Err(ProtocolError::UnexpectedEof)
    );
    assert_eq!(
        vk::EnumeratePhysicalDevicesRequest::decode(&[0u8; 7]),
        Err(ProtocolError::UnexpectedEof)
    );
    // Count says 2 devices but only one handle's worth of bytes follow.
    let mut truncated = Vec::new();
    truncated.extend_from_slice(&2u32.to_le_bytes());
    truncated.extend_from_slice(&0u64.to_le_bytes());
    assert_eq!(
        vk::EnumeratePhysicalDevicesResponse::decode(&truncated),
        Err(ProtocolError::UnexpectedEof)
    );
}

#[test]
fn vk_create_device_roundtrip() {
    let req = vk::CreateDeviceRequest {
        physical_device: Handle::new(2, 1, 9),
    };
    let mut b = Vec::new();
    req.encode(&mut b);
    assert_eq!(b.len(), 8);
    assert_eq!(vk::CreateDeviceRequest::decode(&b).expect("req"), req);

    let resp = vk::CreateDeviceResponse {
        device: Handle::new(3, 7, 11),
    };
    let mut b = Vec::new();
    resp.encode(&mut b);
    assert_eq!(b.len(), 8);
    assert_eq!(vk::CreateDeviceResponse::decode(&b).expect("resp"), resp);
}

#[test]
fn vk_get_device_queue_roundtrip() {
    let req = vk::GetDeviceQueueRequest {
        device: Handle::new(3, 2, 4),
        queue_family_index: 1,
        queue_index: u32::MAX,
    };
    let mut b = Vec::new();
    req.encode(&mut b);
    assert_eq!(b.len(), 16);
    assert_eq!(vk::GetDeviceQueueRequest::decode(&b).expect("req"), req);

    let resp = vk::GetDeviceQueueResponse {
        queue: Handle::new(4, Handle::GENERATION_MAX, 0),
    };
    let mut b = Vec::new();
    resp.encode(&mut b);
    assert_eq!(b.len(), 8);
    assert_eq!(vk::GetDeviceQueueResponse::decode(&b).expect("resp"), resp);
}

#[test]
fn vk_device_queue_bodies_reject_short_buffers() {
    assert_eq!(
        vk::CreateDeviceRequest::decode(&[0u8; 7]),
        Err(ProtocolError::UnexpectedEof)
    );
    assert_eq!(
        vk::CreateDeviceResponse::decode(&[0u8; 7]),
        Err(ProtocolError::UnexpectedEof)
    );
    assert_eq!(
        vk::GetDeviceQueueRequest::decode(&[0u8; 15]),
        Err(ProtocolError::UnexpectedEof)
    );
    assert_eq!(
        vk::GetDeviceQueueResponse::decode(&[0u8; 7]),
        Err(ProtocolError::UnexpectedEof)
    );
}

#[test]
fn gl_create_context_response_roundtrip() {
    let resp = gl::CreateContextResponse {
        context: Handle::new(10, 5, 42),
    };
    let mut b = Vec::new();
    resp.encode(&mut b);
    assert_eq!(b.len(), 8);
    assert_eq!(gl::CreateContextResponse::decode(&b).expect("resp"), resp);
}

#[test]
fn gl_make_current_request_roundtrip() {
    let req = gl::MakeCurrentRequest {
        context: Handle::new(10, 3, 7),
    };
    let mut b = Vec::new();
    req.encode(&mut b);
    assert_eq!(b.len(), 8);
    assert_eq!(gl::MakeCurrentRequest::decode(&b).expect("req"), req);
}

#[test]
fn gl_gen_buffer_roundtrip() {
    let req = gl::GenBufferRequest {
        context: Handle::new(10, 2, 4),
    };
    let mut b = Vec::new();
    req.encode(&mut b);
    assert_eq!(b.len(), 8);
    assert_eq!(gl::GenBufferRequest::decode(&b).expect("req"), req);

    let resp = gl::GenBufferResponse {
        buffer: Handle::new(11, Handle::GENERATION_MAX, u32::MAX),
    };
    let mut b = Vec::new();
    resp.encode(&mut b);
    assert_eq!(b.len(), 8);
    assert_eq!(gl::GenBufferResponse::decode(&b).expect("resp"), resp);
}

#[test]
fn gl_bodies_reject_short_buffers() {
    assert_eq!(
        gl::CreateContextResponse::decode(&[0u8; 7]),
        Err(ProtocolError::UnexpectedEof)
    );
    assert_eq!(
        gl::MakeCurrentRequest::decode(&[0u8; 7]),
        Err(ProtocolError::UnexpectedEof)
    );
    assert_eq!(
        gl::GenBufferRequest::decode(&[0u8; 7]),
        Err(ProtocolError::UnexpectedEof)
    );
    assert_eq!(
        gl::GenBufferResponse::decode(&[0u8; 7]),
        Err(ProtocolError::UnexpectedEof)
    );
}

#[test]
fn vk_opcodes_memory_buffer_in_vulkan_namespace() {
    assert_eq!(opcode_api(vk_op::ALLOCATE_MEMORY), ApiId::Vulkan as u8);
    assert_eq!(opcode_api(vk_op::CREATE_BUFFER), ApiId::Vulkan as u8);
    assert_eq!(opcode_api(vk_op::BIND_BUFFER_MEMORY), ApiId::Vulkan as u8);
    assert_eq!(opcode_call(vk_op::ALLOCATE_MEMORY), 0x0010);
    assert_eq!(opcode_call(vk_op::CREATE_BUFFER), 0x0011);
    assert_eq!(opcode_call(vk_op::BIND_BUFFER_MEMORY), 0x0012);
}

#[test]
fn vk_allocate_memory_roundtrip() {
    let req = vk::AllocateMemoryRequest {
        device: Handle::new(3, 2, 4),
        size: 0x1234_5678_9ABC_DEF0,
    };
    let mut b = Vec::new();
    req.encode(&mut b);
    assert_eq!(b.len(), 16);
    assert_eq!(vk::AllocateMemoryRequest::decode(&b).expect("req"), req);

    let resp = vk::AllocateMemoryResponse {
        memory: Handle::new(5, 7, 11),
    };
    let mut b = Vec::new();
    resp.encode(&mut b);
    assert_eq!(b.len(), 8);
    assert_eq!(vk::AllocateMemoryResponse::decode(&b).expect("resp"), resp);
}

#[test]
fn vk_create_buffer_roundtrip() {
    let req = vk::CreateBufferRequest {
        device: Handle::new(3, 1, 9),
        size: u64::MAX,
        usage: 0xDEAD_BEEF,
    };
    let mut b = Vec::new();
    req.encode(&mut b);
    assert_eq!(b.len(), 20);
    assert_eq!(vk::CreateBufferRequest::decode(&b).expect("req"), req);

    let resp = vk::CreateBufferResponse {
        buffer: Handle::new(6, Handle::GENERATION_MAX, u32::MAX),
    };
    let mut b = Vec::new();
    resp.encode(&mut b);
    assert_eq!(b.len(), 8);
    assert_eq!(vk::CreateBufferResponse::decode(&b).expect("resp"), resp);
}

#[test]
fn vk_bind_buffer_memory_roundtrip() {
    let req = vk::BindBufferMemoryRequest {
        buffer: Handle::new(6, 3, 2),
        memory: Handle::new(5, 4, 8),
        offset: 0x0FED_CBA9_8765_4321,
    };
    let mut b = Vec::new();
    req.encode(&mut b);
    assert_eq!(b.len(), 24);
    assert_eq!(vk::BindBufferMemoryRequest::decode(&b).expect("req"), req);
}

#[test]
fn vk_memory_buffer_bodies_reject_short_buffers() {
    assert_eq!(
        vk::AllocateMemoryRequest::decode(&[0u8; 15]),
        Err(ProtocolError::UnexpectedEof)
    );
    assert_eq!(
        vk::AllocateMemoryResponse::decode(&[0u8; 7]),
        Err(ProtocolError::UnexpectedEof)
    );
    assert_eq!(
        vk::CreateBufferRequest::decode(&[0u8; 19]),
        Err(ProtocolError::UnexpectedEof)
    );
    assert_eq!(
        vk::CreateBufferResponse::decode(&[0u8; 7]),
        Err(ProtocolError::UnexpectedEof)
    );
    assert_eq!(
        vk::BindBufferMemoryRequest::decode(&[0u8; 23]),
        Err(ProtocolError::UnexpectedEof)
    );
}

#[test]
fn vk_opcodes_command_buffer_in_vulkan_namespace() {
    assert_eq!(opcode_api(vk_op::CREATE_COMMAND_POOL), ApiId::Vulkan as u8);
    assert_eq!(
        opcode_api(vk_op::ALLOCATE_COMMAND_BUFFER),
        ApiId::Vulkan as u8
    );
    assert_eq!(opcode_api(vk_op::QUEUE_SUBMIT), ApiId::Vulkan as u8);
    assert_eq!(opcode_call(vk_op::CREATE_COMMAND_POOL), 0x0020);
    assert_eq!(opcode_call(vk_op::ALLOCATE_COMMAND_BUFFER), 0x0021);
    assert_eq!(opcode_call(vk_op::QUEUE_SUBMIT), 0x0022);
    assert_ne!(vk_op::CREATE_COMMAND_POOL, vk_op::ALLOCATE_COMMAND_BUFFER);
    assert_ne!(vk_op::ALLOCATE_COMMAND_BUFFER, vk_op::QUEUE_SUBMIT);
}

#[test]
fn vk_create_command_pool_roundtrip() {
    let req = vk::CreateCommandPoolRequest {
        device: Handle::new(3, 2, 4),
        queue_family_index: u32::MAX,
    };
    let mut b = Vec::new();
    req.encode(&mut b);
    assert_eq!(b.len(), 12);
    assert_eq!(vk::CreateCommandPoolRequest::decode(&b).expect("req"), req);

    let resp = vk::CreateCommandPoolResponse {
        pool: Handle::new(7, Handle::GENERATION_MAX, u32::MAX),
    };
    let mut b = Vec::new();
    resp.encode(&mut b);
    assert_eq!(b.len(), 8);
    assert_eq!(
        vk::CreateCommandPoolResponse::decode(&b).expect("resp"),
        resp
    );
}

#[test]
fn vk_allocate_command_buffer_roundtrip() {
    let req = vk::AllocateCommandBufferRequest {
        pool: Handle::new(7, 3, 9),
    };
    let mut b = Vec::new();
    req.encode(&mut b);
    assert_eq!(b.len(), 8);
    assert_eq!(
        vk::AllocateCommandBufferRequest::decode(&b).expect("req"),
        req
    );

    let resp = vk::AllocateCommandBufferResponse {
        command_buffer: Handle::new(8, Handle::GENERATION_MAX, u32::MAX),
    };
    let mut b = Vec::new();
    resp.encode(&mut b);
    assert_eq!(b.len(), 8);
    assert_eq!(
        vk::AllocateCommandBufferResponse::decode(&b).expect("resp"),
        resp
    );
}

#[test]
fn vk_queue_submit_roundtrip() {
    let req = vk::QueueSubmitRequest {
        queue: Handle::new(4, 1, 2),
        command_buffer: Handle::new(8, 6, 5),
    };
    let mut b = Vec::new();
    req.encode(&mut b);
    assert_eq!(b.len(), 16);
    assert_eq!(vk::QueueSubmitRequest::decode(&b).expect("req"), req);
}

#[test]
fn vk_command_buffer_bodies_reject_short_buffers() {
    assert_eq!(
        vk::CreateCommandPoolRequest::decode(&[0u8; 11]),
        Err(ProtocolError::UnexpectedEof)
    );
    assert_eq!(
        vk::CreateCommandPoolResponse::decode(&[0u8; 7]),
        Err(ProtocolError::UnexpectedEof)
    );
    assert_eq!(
        vk::AllocateCommandBufferRequest::decode(&[0u8; 7]),
        Err(ProtocolError::UnexpectedEof)
    );
    assert_eq!(
        vk::AllocateCommandBufferResponse::decode(&[0u8; 7]),
        Err(ProtocolError::UnexpectedEof)
    );
    assert_eq!(
        vk::QueueSubmitRequest::decode(&[0u8; 15]),
        Err(ProtocolError::UnexpectedEof)
    );
}

#[test]
fn vk_opcodes_draw_copy_in_vulkan_namespace() {
    assert_eq!(opcode_api(vk_op::CMD_COPY_BUFFER), ApiId::Vulkan as u8);
    assert_eq!(opcode_api(vk_op::CMD_DRAW), ApiId::Vulkan as u8);
    assert_eq!(opcode_call(vk_op::CMD_COPY_BUFFER), 0x0023);
    assert_eq!(opcode_call(vk_op::CMD_DRAW), 0x0024);
    assert_ne!(vk_op::CMD_COPY_BUFFER, vk_op::CMD_DRAW);
    assert_ne!(vk_op::QUEUE_SUBMIT, vk_op::CMD_COPY_BUFFER);
}

#[test]
fn vk_cmd_copy_buffer_roundtrip() {
    let req = vk::CmdCopyBufferRequest {
        command_buffer: Handle::new(8, 1, 2),
        src: Handle::new(6, 3, 4),
        dst: Handle::new(6, 5, 6),
        size: u64::MAX,
    };
    let mut b = Vec::new();
    req.encode(&mut b);
    assert_eq!(b.len(), 32);
    assert_eq!(vk::CmdCopyBufferRequest::decode(&b).expect("req"), req);
}

#[test]
fn vk_cmd_draw_roundtrip() {
    let req = vk::CmdDrawRequest {
        command_buffer: Handle::new(8, 7, 9),
        vertex_count: u32::MAX,
        instance_count: 1,
    };
    let mut b = Vec::new();
    req.encode(&mut b);
    assert_eq!(b.len(), 16);
    assert_eq!(vk::CmdDrawRequest::decode(&b).expect("req"), req);
}

#[test]
fn vk_draw_copy_bodies_reject_short_buffers() {
    assert_eq!(
        vk::CmdCopyBufferRequest::decode(&[0u8; 31]),
        Err(ProtocolError::UnexpectedEof)
    );
    assert_eq!(
        vk::CmdDrawRequest::decode(&[0u8; 15]),
        Err(ProtocolError::UnexpectedEof)
    );
}

#[test]
fn cuda_opcodes_are_in_cuda_namespace() {
    assert_eq!(opcode_api(cuda_op::CTX_CREATE), ApiId::Cuda as u8);
    assert_eq!(opcode_api(cuda_op::MEM_ALLOC), ApiId::Cuda as u8);
    assert_eq!(opcode_api(cuda_op::MEM_FREE), ApiId::Cuda as u8);
    assert_eq!(opcode_call(cuda_op::CTX_CREATE), 0x0001);
    assert_eq!(opcode_call(cuda_op::MEM_ALLOC), 0x0002);
    assert_eq!(opcode_call(cuda_op::MEM_FREE), 0x0003);
    assert_ne!(cuda_op::CTX_CREATE, cuda_op::MEM_ALLOC);
    assert_ne!(cuda_op::MEM_ALLOC, cuda_op::MEM_FREE);
}

#[test]
fn cuda_ctx_create_roundtrip() {
    let req = cuda::CtxCreateRequest {
        device_ordinal: 0xDEAD_BEEF,
    };
    let mut b = Vec::new();
    req.encode(&mut b);
    assert_eq!(b.len(), 4);
    assert_eq!(cuda::CtxCreateRequest::decode(&b).expect("req"), req);

    let resp = cuda::CtxCreateResponse {
        context: Handle::new(7, 5, 42),
    };
    let mut b = Vec::new();
    resp.encode(&mut b);
    assert_eq!(b.len(), 8);
    assert_eq!(cuda::CtxCreateResponse::decode(&b).expect("resp"), resp);
}

#[test]
fn cuda_mem_alloc_roundtrip() {
    let req = cuda::MemAllocRequest {
        context: Handle::new(7, 2, 4),
        size: 0x1234_5678_9ABC_DEF0,
    };
    let mut b = Vec::new();
    req.encode(&mut b);
    assert_eq!(b.len(), 16);
    assert_eq!(cuda::MemAllocRequest::decode(&b).expect("req"), req);

    let resp = cuda::MemAllocResponse {
        dptr: Handle::new(8, Handle::GENERATION_MAX, u32::MAX),
    };
    let mut b = Vec::new();
    resp.encode(&mut b);
    assert_eq!(b.len(), 8);
    assert_eq!(cuda::MemAllocResponse::decode(&b).expect("resp"), resp);
}

#[test]
fn cuda_mem_free_roundtrip() {
    let req = cuda::MemFreeRequest {
        dptr: Handle::new(8, 3, 11),
    };
    let mut b = Vec::new();
    req.encode(&mut b);
    assert_eq!(b.len(), 8);
    assert_eq!(cuda::MemFreeRequest::decode(&b).expect("req"), req);
}

#[test]
fn cuda_bodies_reject_short_buffers() {
    assert_eq!(
        cuda::CtxCreateRequest::decode(&[0u8; 3]),
        Err(ProtocolError::UnexpectedEof)
    );
    assert_eq!(
        cuda::CtxCreateResponse::decode(&[0u8; 7]),
        Err(ProtocolError::UnexpectedEof)
    );
    assert_eq!(
        cuda::MemAllocRequest::decode(&[0u8; 15]),
        Err(ProtocolError::UnexpectedEof)
    );
    assert_eq!(
        cuda::MemAllocResponse::decode(&[0u8; 7]),
        Err(ProtocolError::UnexpectedEof)
    );
    assert_eq!(
        cuda::MemFreeRequest::decode(&[0u8; 7]),
        Err(ProtocolError::UnexpectedEof)
    );
}

#[test]
fn hip_opcodes_are_in_hip_namespace() {
    assert_eq!(opcode_api(hip_op::MALLOC), ApiId::Hip as u8);
    assert_eq!(opcode_api(hip_op::FREE), ApiId::Hip as u8);
    assert_eq!(opcode_api(hip_op::STREAM_CREATE), ApiId::Hip as u8);
    assert_eq!(opcode_call(hip_op::MALLOC), 0x0001);
    assert_eq!(opcode_call(hip_op::FREE), 0x0002);
    assert_eq!(opcode_call(hip_op::STREAM_CREATE), 0x0003);
    assert_ne!(hip_op::MALLOC, hip_op::FREE);
    assert_ne!(hip_op::FREE, hip_op::STREAM_CREATE);
}

#[test]
fn hip_malloc_roundtrip() {
    let req = hip::MallocRequest {
        size: 0x1234_5678_9ABC_DEF0,
    };
    let mut b = Vec::new();
    req.encode(&mut b);
    assert_eq!(b.len(), 8);
    assert_eq!(hip::MallocRequest::decode(&b).expect("req"), req);

    let resp = hip::MallocResponse {
        dptr: Handle::new(8, Handle::GENERATION_MAX, u32::MAX),
    };
    let mut b = Vec::new();
    resp.encode(&mut b);
    assert_eq!(b.len(), 8);
    assert_eq!(hip::MallocResponse::decode(&b).expect("resp"), resp);
}

#[test]
fn hip_free_roundtrip() {
    let req = hip::FreeRequest {
        dptr: Handle::new(8, 3, 11),
    };
    let mut b = Vec::new();
    req.encode(&mut b);
    assert_eq!(b.len(), 8);
    assert_eq!(hip::FreeRequest::decode(&b).expect("req"), req);
}

#[test]
fn hip_stream_create_roundtrip() {
    let resp = hip::StreamCreateResponse {
        stream: Handle::new(9, 5, 42),
    };
    let mut b = Vec::new();
    resp.encode(&mut b);
    assert_eq!(b.len(), 8);
    assert_eq!(hip::StreamCreateResponse::decode(&b).expect("resp"), resp);
}

#[test]
fn hip_bodies_reject_short_buffers() {
    assert_eq!(
        hip::MallocRequest::decode(&[0u8; 7]),
        Err(ProtocolError::UnexpectedEof)
    );
    assert_eq!(
        hip::MallocResponse::decode(&[0u8; 7]),
        Err(ProtocolError::UnexpectedEof)
    );
    assert_eq!(
        hip::FreeRequest::decode(&[0u8; 7]),
        Err(ProtocolError::UnexpectedEof)
    );
    assert_eq!(
        hip::StreamCreateResponse::decode(&[0u8; 7]),
        Err(ProtocolError::UnexpectedEof)
    );
}

#[test]
fn cl_opcodes_are_in_opencl_namespace() {
    assert_eq!(opcode_api(cl_op::CREATE_CONTEXT), ApiId::OpenCl as u8);
    assert_eq!(opcode_api(cl_op::CREATE_BUFFER), ApiId::OpenCl as u8);
    assert_eq!(opcode_api(cl_op::RELEASE_BUFFER), ApiId::OpenCl as u8);
    assert_eq!(opcode_call(cl_op::CREATE_CONTEXT), 0x0001);
    assert_eq!(opcode_call(cl_op::CREATE_BUFFER), 0x0002);
    assert_eq!(opcode_call(cl_op::RELEASE_BUFFER), 0x0003);
    assert_ne!(cl_op::CREATE_CONTEXT, cl_op::CREATE_BUFFER);
    assert_ne!(cl_op::CREATE_BUFFER, cl_op::RELEASE_BUFFER);
}

#[test]
fn cl_create_context_response_roundtrip() {
    let resp = cl::CreateContextResponse {
        context: Handle::new(12, 5, 42),
    };
    let mut b = Vec::new();
    resp.encode(&mut b);
    assert_eq!(b.len(), 8);
    assert_eq!(cl::CreateContextResponse::decode(&b).expect("resp"), resp);
}

#[test]
fn cl_create_buffer_roundtrip() {
    let req = cl::CreateBufferRequest {
        context: Handle::new(12, 2, 4),
        size: 0x1234_5678_9ABC_DEF0,
    };
    let mut b = Vec::new();
    req.encode(&mut b);
    assert_eq!(b.len(), 16);
    assert_eq!(cl::CreateBufferRequest::decode(&b).expect("req"), req);

    let resp = cl::CreateBufferResponse {
        mem: Handle::new(13, Handle::GENERATION_MAX, u32::MAX),
    };
    let mut b = Vec::new();
    resp.encode(&mut b);
    assert_eq!(b.len(), 8);
    assert_eq!(cl::CreateBufferResponse::decode(&b).expect("resp"), resp);
}

#[test]
fn cl_release_buffer_roundtrip() {
    let req = cl::ReleaseBufferRequest {
        mem: Handle::new(13, 3, 11),
    };
    let mut b = Vec::new();
    req.encode(&mut b);
    assert_eq!(b.len(), 8);
    assert_eq!(cl::ReleaseBufferRequest::decode(&b).expect("req"), req);
}

#[test]
fn cl_bodies_reject_short_buffers() {
    assert_eq!(
        cl::CreateContextResponse::decode(&[0u8; 7]),
        Err(ProtocolError::UnexpectedEof)
    );
    assert_eq!(
        cl::CreateBufferRequest::decode(&[0u8; 15]),
        Err(ProtocolError::UnexpectedEof)
    );
    assert_eq!(
        cl::CreateBufferResponse::decode(&[0u8; 7]),
        Err(ProtocolError::UnexpectedEof)
    );
    assert_eq!(
        cl::ReleaseBufferRequest::decode(&[0u8; 7]),
        Err(ProtocolError::UnexpectedEof)
    );
}

#[test]
fn l0_opcodes_are_in_level_zero_namespace() {
    assert_eq!(opcode_api(l0_op::CONTEXT_CREATE), ApiId::LevelZero as u8);
    assert_eq!(opcode_api(l0_op::MEM_ALLOC_DEVICE), ApiId::LevelZero as u8);
    assert_eq!(opcode_api(l0_op::MEM_FREE), ApiId::LevelZero as u8);
    assert_eq!(opcode_call(l0_op::CONTEXT_CREATE), 0x0001);
    assert_eq!(opcode_call(l0_op::MEM_ALLOC_DEVICE), 0x0002);
    assert_eq!(opcode_call(l0_op::MEM_FREE), 0x0003);
    assert_ne!(l0_op::CONTEXT_CREATE, l0_op::MEM_ALLOC_DEVICE);
    assert_ne!(l0_op::MEM_ALLOC_DEVICE, l0_op::MEM_FREE);
}

#[test]
fn l0_context_create_response_roundtrip() {
    let resp = l0::ContextCreateResponse {
        context: Handle::new(14, 5, 42),
    };
    let mut b = Vec::new();
    resp.encode(&mut b);
    assert_eq!(b.len(), 8);
    assert_eq!(l0::ContextCreateResponse::decode(&b).expect("resp"), resp);
}

#[test]
fn l0_mem_alloc_device_roundtrip() {
    let req = l0::MemAllocDeviceRequest {
        context: Handle::new(14, 2, 4),
        size: 0x1234_5678_9ABC_DEF0,
    };
    let mut b = Vec::new();
    req.encode(&mut b);
    assert_eq!(b.len(), 16);
    assert_eq!(l0::MemAllocDeviceRequest::decode(&b).expect("req"), req);

    let resp = l0::MemAllocDeviceResponse {
        ptr: Handle::new(15, Handle::GENERATION_MAX, u32::MAX),
    };
    let mut b = Vec::new();
    resp.encode(&mut b);
    assert_eq!(b.len(), 8);
    assert_eq!(l0::MemAllocDeviceResponse::decode(&b).expect("resp"), resp);
}

#[test]
fn l0_mem_free_roundtrip() {
    let req = l0::MemFreeRequest {
        ptr: Handle::new(15, 3, 11),
    };
    let mut b = Vec::new();
    req.encode(&mut b);
    assert_eq!(b.len(), 8);
    assert_eq!(l0::MemFreeRequest::decode(&b).expect("req"), req);
}

#[test]
fn l0_bodies_reject_short_buffers() {
    assert_eq!(
        l0::ContextCreateResponse::decode(&[0u8; 7]),
        Err(ProtocolError::UnexpectedEof)
    );
    assert_eq!(
        l0::MemAllocDeviceRequest::decode(&[0u8; 15]),
        Err(ProtocolError::UnexpectedEof)
    );
    assert_eq!(
        l0::MemAllocDeviceResponse::decode(&[0u8; 7]),
        Err(ProtocolError::UnexpectedEof)
    );
    assert_eq!(
        l0::MemFreeRequest::decode(&[0u8; 7]),
        Err(ProtocolError::UnexpectedEof)
    );
}

#[test]
fn full_frame_roundtrip() {
    let body = [1u8, 2, 3, 4];
    let h = FrameHeader {
        version: 0,
        flags: 0,
        kind: FrameKind::Response,
        opcode: core_op::NOOP,
        req_id: 1,
        seq: 1,
        body_len: body.len() as u32,
    };
    let frame = encode_frame(&h, &body);
    let (gh, gb) = decode_frame(&frame).expect("decode");
    assert_eq!(gh, h);
    assert_eq!(gb, &body);
}

#[test]
fn video_opcodes_are_in_video_namespace() {
    assert_eq!(
        opcode_api(video_op::CREATE_DECODE_SESSION),
        ApiId::Video as u8
    );
    assert_eq!(opcode_api(video_op::DECODE_FRAME), ApiId::Video as u8);
    assert_eq!(opcode_api(video_op::DESTROY_SESSION), ApiId::Video as u8);
    assert_eq!(opcode_call(video_op::CREATE_DECODE_SESSION), 0x0001);
    assert_eq!(opcode_call(video_op::DECODE_FRAME), 0x0002);
    assert_eq!(opcode_call(video_op::DESTROY_SESSION), 0x0003);
    assert_ne!(video_op::CREATE_DECODE_SESSION, video_op::DECODE_FRAME);
    assert_ne!(video_op::DECODE_FRAME, video_op::DESTROY_SESSION);
}

#[test]
fn video_create_decode_session_roundtrip() {
    let req = video::CreateDecodeSessionRequest {
        codec: 0xDEAD_BEEF,
        width: 1920,
        height: 1080,
    };
    let mut b = Vec::new();
    req.encode(&mut b);
    assert_eq!(b.len(), 12);
    assert_eq!(
        video::CreateDecodeSessionRequest::decode(&b).expect("req"),
        req
    );

    let resp = video::CreateDecodeSessionResponse {
        session: Handle::new(16, 5, 42),
    };
    let mut b = Vec::new();
    resp.encode(&mut b);
    assert_eq!(b.len(), 8);
    assert_eq!(
        video::CreateDecodeSessionResponse::decode(&b).expect("resp"),
        resp
    );
}

#[test]
fn video_decode_frame_roundtrip() {
    let req = video::DecodeFrameRequest {
        session: Handle::new(16, 2, 4),
        bitstream_len: u32::MAX,
    };
    let mut b = Vec::new();
    req.encode(&mut b);
    assert_eq!(b.len(), 12);
    assert_eq!(video::DecodeFrameRequest::decode(&b).expect("req"), req);

    let resp = video::DecodeFrameResponse {
        frame_index: 0x1234_5678,
    };
    let mut b = Vec::new();
    resp.encode(&mut b);
    assert_eq!(b.len(), 4);
    assert_eq!(video::DecodeFrameResponse::decode(&b).expect("resp"), resp);
}

#[test]
fn video_destroy_session_roundtrip() {
    let req = video::DestroySessionRequest {
        session: Handle::new(16, 3, 11),
    };
    let mut b = Vec::new();
    req.encode(&mut b);
    assert_eq!(b.len(), 8);
    assert_eq!(video::DestroySessionRequest::decode(&b).expect("req"), req);
}

#[test]
fn video_bodies_reject_short_buffers() {
    assert_eq!(
        video::CreateDecodeSessionRequest::decode(&[0u8; 11]),
        Err(ProtocolError::UnexpectedEof)
    );
    assert_eq!(
        video::CreateDecodeSessionResponse::decode(&[0u8; 7]),
        Err(ProtocolError::UnexpectedEof)
    );
    assert_eq!(
        video::DecodeFrameRequest::decode(&[0u8; 11]),
        Err(ProtocolError::UnexpectedEof)
    );
    assert_eq!(
        video::DecodeFrameResponse::decode(&[0u8; 3]),
        Err(ProtocolError::UnexpectedEof)
    );
    assert_eq!(
        video::DestroySessionRequest::decode(&[0u8; 7]),
        Err(ProtocolError::UnexpectedEof)
    );
}

#[test]
fn webgpu_api_id_value() {
    assert_eq!(ApiId::WebGpu as u8, 0x08);
}

#[test]
fn wgpu_opcodes_are_in_webgpu_namespace() {
    assert_eq!(opcode_api(wgpu_op::REQUEST_DEVICE), ApiId::WebGpu as u8);
    assert_eq!(opcode_api(wgpu_op::CREATE_BUFFER), ApiId::WebGpu as u8);
    assert_eq!(opcode_api(wgpu_op::DESTROY_BUFFER), ApiId::WebGpu as u8);
    assert_eq!(opcode_call(wgpu_op::REQUEST_DEVICE), 0x0001);
    assert_eq!(opcode_call(wgpu_op::CREATE_BUFFER), 0x0002);
    assert_eq!(opcode_call(wgpu_op::DESTROY_BUFFER), 0x0003);
    assert_ne!(wgpu_op::REQUEST_DEVICE, wgpu_op::CREATE_BUFFER);
    assert_ne!(wgpu_op::CREATE_BUFFER, wgpu_op::DESTROY_BUFFER);
}

#[test]
fn wgpu_request_device_response_roundtrip() {
    let resp = wgpu::RequestDeviceResponse {
        device: Handle::new(17, 5, 42),
    };
    let mut b = Vec::new();
    resp.encode(&mut b);
    assert_eq!(b.len(), 8);
    assert_eq!(wgpu::RequestDeviceResponse::decode(&b).expect("resp"), resp);
}

#[test]
fn wgpu_create_buffer_roundtrip() {
    let req = wgpu::CreateBufferRequest {
        device: Handle::new(17, 1, 9),
        size: u64::MAX,
        usage: 0xDEAD_BEEF,
    };
    let mut b = Vec::new();
    req.encode(&mut b);
    assert_eq!(b.len(), 20);
    assert_eq!(wgpu::CreateBufferRequest::decode(&b).expect("req"), req);

    let resp = wgpu::CreateBufferResponse {
        buffer: Handle::new(18, Handle::GENERATION_MAX, u32::MAX),
    };
    let mut b = Vec::new();
    resp.encode(&mut b);
    assert_eq!(b.len(), 8);
    assert_eq!(wgpu::CreateBufferResponse::decode(&b).expect("resp"), resp);
}

#[test]
fn wgpu_destroy_buffer_roundtrip() {
    let req = wgpu::DestroyBufferRequest {
        buffer: Handle::new(18, 3, 11),
    };
    let mut b = Vec::new();
    req.encode(&mut b);
    assert_eq!(b.len(), 8);
    assert_eq!(wgpu::DestroyBufferRequest::decode(&b).expect("req"), req);
}

#[test]
fn wgpu_bodies_reject_short_buffers() {
    assert_eq!(
        wgpu::RequestDeviceResponse::decode(&[0u8; 7]),
        Err(ProtocolError::UnexpectedEof)
    );
    assert_eq!(
        wgpu::CreateBufferRequest::decode(&[0u8; 19]),
        Err(ProtocolError::UnexpectedEof)
    );
    assert_eq!(
        wgpu::CreateBufferResponse::decode(&[0u8; 7]),
        Err(ProtocolError::UnexpectedEof)
    );
    assert_eq!(
        wgpu::DestroyBufferRequest::decode(&[0u8; 7]),
        Err(ProtocolError::UnexpectedEof)
    );
}

#[test]
fn optix_api_id_value() {
    assert_eq!(ApiId::OptiX as u8, 0x09);
}

#[test]
fn optix_opcodes_are_in_optix_namespace() {
    assert_eq!(opcode_api(optix_op::CONTEXT_CREATE), ApiId::OptiX as u8);
    assert_eq!(opcode_api(optix_op::PIPELINE_CREATE), ApiId::OptiX as u8);
    assert_eq!(opcode_api(optix_op::DESTROY), ApiId::OptiX as u8);
    assert_eq!(opcode_api(optix_op::CONTEXT_CREATE), 0x09);
    assert_eq!(opcode_call(optix_op::CONTEXT_CREATE), 0x0001);
    assert_eq!(opcode_call(optix_op::PIPELINE_CREATE), 0x0002);
    assert_eq!(opcode_call(optix_op::DESTROY), 0x0003);
    assert_ne!(optix_op::CONTEXT_CREATE, optix_op::PIPELINE_CREATE);
    assert_ne!(optix_op::PIPELINE_CREATE, optix_op::DESTROY);
}

#[test]
fn optix_context_create_response_roundtrip() {
    let resp = optix::ContextCreateResponse {
        context: Handle::new(19, 5, 42),
    };
    let mut b = Vec::new();
    resp.encode(&mut b);
    assert_eq!(b.len(), 8);
    assert_eq!(
        optix::ContextCreateResponse::decode(&b).expect("resp"),
        resp
    );
}

#[test]
fn optix_pipeline_create_roundtrip() {
    let req = optix::PipelineCreateRequest {
        context: Handle::new(19, 2, 4),
    };
    let mut b = Vec::new();
    req.encode(&mut b);
    assert_eq!(b.len(), 8);
    assert_eq!(optix::PipelineCreateRequest::decode(&b).expect("req"), req);

    let resp = optix::PipelineCreateResponse {
        pipeline: Handle::new(20, Handle::GENERATION_MAX, u32::MAX),
    };
    let mut b = Vec::new();
    resp.encode(&mut b);
    assert_eq!(b.len(), 8);
    assert_eq!(
        optix::PipelineCreateResponse::decode(&b).expect("resp"),
        resp
    );
}

#[test]
fn optix_destroy_roundtrip() {
    let req = optix::DestroyRequest {
        handle: Handle::new(19, 3, 11),
    };
    let mut b = Vec::new();
    req.encode(&mut b);
    assert_eq!(b.len(), 8);
    assert_eq!(optix::DestroyRequest::decode(&b).expect("req"), req);
}

#[test]
fn optix_bodies_reject_short_buffers() {
    assert_eq!(
        optix::ContextCreateResponse::decode(&[0u8; 7]),
        Err(ProtocolError::UnexpectedEof)
    );
    assert_eq!(
        optix::PipelineCreateRequest::decode(&[0u8; 7]),
        Err(ProtocolError::UnexpectedEof)
    );
    assert_eq!(
        optix::PipelineCreateResponse::decode(&[0u8; 7]),
        Err(ProtocolError::UnexpectedEof)
    );
    assert_eq!(
        optix::DestroyRequest::decode(&[0u8; 7]),
        Err(ProtocolError::UnexpectedEof)
    );
}

#[test]
fn sycl_api_id_value() {
    assert_eq!(ApiId::Sycl as u8, 0x0A);
}

#[test]
fn sycl_opcodes_are_in_sycl_namespace() {
    assert_eq!(opcode_api(sycl_op::QUEUE_CREATE), ApiId::Sycl as u8);
    assert_eq!(opcode_api(sycl_op::MALLOC_DEVICE), ApiId::Sycl as u8);
    assert_eq!(opcode_api(sycl_op::FREE), ApiId::Sycl as u8);
    assert_eq!(opcode_api(sycl_op::QUEUE_CREATE), 0x0A);
    assert_eq!(opcode_call(sycl_op::QUEUE_CREATE), 0x0001);
    assert_eq!(opcode_call(sycl_op::MALLOC_DEVICE), 0x0002);
    assert_eq!(opcode_call(sycl_op::FREE), 0x0003);
    assert_ne!(sycl_op::QUEUE_CREATE, sycl_op::MALLOC_DEVICE);
    assert_ne!(sycl_op::MALLOC_DEVICE, sycl_op::FREE);
}

#[test]
fn sycl_queue_create_response_roundtrip() {
    let resp = sycl::QueueCreateResponse {
        queue: Handle::new(21, 5, 42),
    };
    let mut b = Vec::new();
    resp.encode(&mut b);
    assert_eq!(b.len(), 8);
    assert_eq!(sycl::QueueCreateResponse::decode(&b).expect("resp"), resp);
}

#[test]
fn sycl_malloc_device_roundtrip() {
    let req = sycl::MallocDeviceRequest {
        queue: Handle::new(21, 2, 4),
        size: 0x1234_5678_9ABC_DEF0,
    };
    let mut b = Vec::new();
    req.encode(&mut b);
    assert_eq!(b.len(), 16);
    assert_eq!(sycl::MallocDeviceRequest::decode(&b).expect("req"), req);

    let resp = sycl::MallocDeviceResponse {
        ptr: Handle::new(22, Handle::GENERATION_MAX, u32::MAX),
    };
    let mut b = Vec::new();
    resp.encode(&mut b);
    assert_eq!(b.len(), 8);
    assert_eq!(sycl::MallocDeviceResponse::decode(&b).expect("resp"), resp);
}

#[test]
fn sycl_free_roundtrip() {
    let req = sycl::FreeRequest {
        ptr: Handle::new(22, 3, 11),
    };
    let mut b = Vec::new();
    req.encode(&mut b);
    assert_eq!(b.len(), 8);
    assert_eq!(sycl::FreeRequest::decode(&b).expect("req"), req);
}

#[test]
fn sycl_bodies_reject_short_buffers() {
    assert_eq!(
        sycl::QueueCreateResponse::decode(&[0u8; 7]),
        Err(ProtocolError::UnexpectedEof)
    );
    assert_eq!(
        sycl::MallocDeviceRequest::decode(&[0u8; 15]),
        Err(ProtocolError::UnexpectedEof)
    );
    assert_eq!(
        sycl::MallocDeviceResponse::decode(&[0u8; 7]),
        Err(ProtocolError::UnexpectedEof)
    );
    assert_eq!(
        sycl::FreeRequest::decode(&[0u8; 7]),
        Err(ProtocolError::UnexpectedEof)
    );
}

#[test]
fn amf_api_id_value() {
    assert_eq!(ApiId::Amf as u8, 0x0B);
}

#[test]
fn amf_opcodes_are_in_amf_namespace() {
    assert_eq!(opcode_api(amf_op::CREATE_ENCODER), ApiId::Amf as u8);
    assert_eq!(opcode_api(amf_op::ENCODE_FRAME), ApiId::Amf as u8);
    assert_eq!(opcode_api(amf_op::DESTROY_ENCODER), ApiId::Amf as u8);
    assert_eq!(opcode_api(amf_op::CREATE_ENCODER), 0x0B);
    assert_eq!(opcode_call(amf_op::CREATE_ENCODER), 0x0001);
    assert_eq!(opcode_call(amf_op::ENCODE_FRAME), 0x0002);
    assert_eq!(opcode_call(amf_op::DESTROY_ENCODER), 0x0003);
    assert_ne!(amf_op::CREATE_ENCODER, amf_op::ENCODE_FRAME);
    assert_ne!(amf_op::ENCODE_FRAME, amf_op::DESTROY_ENCODER);
}

#[test]
fn amf_create_encoder_roundtrip() {
    let req = amf::CreateEncoderRequest {
        codec: 0xDEAD_BEEF,
        width: 1920,
        height: 1080,
    };
    let mut b = Vec::new();
    req.encode(&mut b);
    assert_eq!(b.len(), 12);
    assert_eq!(amf::CreateEncoderRequest::decode(&b).expect("req"), req);

    let resp = amf::CreateEncoderResponse {
        encoder: Handle::new(23, 5, 42),
    };
    let mut b = Vec::new();
    resp.encode(&mut b);
    assert_eq!(b.len(), 8);
    assert_eq!(amf::CreateEncoderResponse::decode(&b).expect("resp"), resp);
}

#[test]
fn amf_encode_frame_roundtrip() {
    let req = amf::EncodeFrameRequest {
        encoder: Handle::new(23, 2, 4),
        frame_len: u32::MAX,
    };
    let mut b = Vec::new();
    req.encode(&mut b);
    assert_eq!(b.len(), 12);
    assert_eq!(amf::EncodeFrameRequest::decode(&b).expect("req"), req);

    let resp = amf::EncodeFrameResponse {
        packet_len: 0x1234_5678,
    };
    let mut b = Vec::new();
    resp.encode(&mut b);
    assert_eq!(b.len(), 4);
    assert_eq!(amf::EncodeFrameResponse::decode(&b).expect("resp"), resp);
}

#[test]
fn amf_destroy_encoder_roundtrip() {
    let req = amf::DestroyEncoderRequest {
        encoder: Handle::new(23, 3, 11),
    };
    let mut b = Vec::new();
    req.encode(&mut b);
    assert_eq!(b.len(), 8);
    assert_eq!(amf::DestroyEncoderRequest::decode(&b).expect("req"), req);
}

#[test]
fn amf_bodies_reject_short_buffers() {
    assert_eq!(
        amf::CreateEncoderRequest::decode(&[0u8; 11]),
        Err(ProtocolError::UnexpectedEof)
    );
    assert_eq!(
        amf::CreateEncoderResponse::decode(&[0u8; 7]),
        Err(ProtocolError::UnexpectedEof)
    );
    assert_eq!(
        amf::EncodeFrameRequest::decode(&[0u8; 11]),
        Err(ProtocolError::UnexpectedEof)
    );
    assert_eq!(
        amf::EncodeFrameResponse::decode(&[0u8; 3]),
        Err(ProtocolError::UnexpectedEof)
    );
    assert_eq!(
        amf::DestroyEncoderRequest::decode(&[0u8; 7]),
        Err(ProtocolError::UnexpectedEof)
    );
}

#[test]
fn every_protocol_error_has_its_message() {
    assert_eq!(
        ProtocolError::UnexpectedEof.message(),
        "unexpected end of buffer"
    );
    assert_eq!(
        ProtocolError::UnknownOpcode(0x0100_00AB).message(),
        "unknown opcode: 0x010000ab"
    );
    assert_eq!(
        ProtocolError::BadKind(9).message(),
        "unsupported frame kind: 9"
    );
    assert_eq!(
        ProtocolError::BadVersion { major: 2, minor: 10 }.message(),
        "unsupported protocol version: 2.10"
    );
    assert_eq!(
        ProtocolError::FrameTooLarge(65537).message(),
        "frame body too large: 65537 bytes"
    );
    assert_eq!(
        ProtocolError::BodyLenMismatch { declared: 8, actual: 0 }.message(),
        "body length mismatch: header says 8, found 0"
    );
}

#[test]
fn opcodes_give_back_their_fields() {
    let op = opcode(ApiId::Amf, 0xFF12_3456);
    assert_eq!(op, 0x0B12_3456);
    assert_eq!(opcode_api(op), ApiId::Amf.to_byte());
    assert_eq!(opcode_call(op), 0x12_3456);
}

#[test]
fn handles_give_back_their_fields() {
    let h = Handle::new(0xFE, 0x00AB_CDEF, 0x8765_4321);
    assert_eq!(h.kind(), 0xFE);
    assert_eq!(h.generation(), 0x00AB_CDEF);
    assert_eq!(h.slot(), 0x8765_4321);
    assert_eq!(Handle::new(h.kind(), h.generation(), h.slot()), h);
}

#[test]
fn frame_kinds_outside_the_known_are_refused() {
    let header = FrameHeader {
        version: PROTOCOL_MAJOR,
        flags: 0,
        kind: FrameKind::Event,
        opcode: 1,
        req_id: 2,
        seq: 3,
        body_len: 1,
    };
    let mut frame = encode_frame(&header, &[9]);
    assert_eq!(decode_frame(&frame), Ok((header, &[9u8][..])));
    let at = (0..frame.len())
        .find(|&i| {
            let mut changed = frame.clone();
            changed[i] = 77;
            matches!(decode_frame(&changed), Err(ProtocolError::BadKind(_)))
        })
        .expect("some byte holds the kind");
    frame[at] = 77;
    assert_eq!(decode_frame(&frame), Err(ProtocolError::BadKind(77)));
}

#[test]
fn device_lists_round_trip_and_refuse_truncation() {
    let devices: Vec<Handle> = (0..5).map(|slot| Handle::new(2, 1, slot)).collect();
    let list = vk::EnumeratePhysicalDevicesResponse { devices };
    let mut bytes = Vec::new();
    list.encode(&mut bytes);
    assert_eq!(bytes.len(), 4 + 8 * 5);
    assert_eq!(vk::EnumeratePhysicalDevicesResponse::decode(&bytes), Ok(list));
    for len in 0..bytes.len() {
        assert_eq!(
            vk::EnumeratePhysicalDevicesResponse::decode(&bytes[..len]),
            Err(ProtocolError::UnexpectedEof)
        );
    }
}
