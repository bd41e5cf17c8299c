//! Vulkan client shim.
//!
//! Builds the request frames of the Vulkan entrypoints and reads the frames
//! that the server's Vulkan backend replies with. Pure Rust: no driver, no
//! GPU.
use vstd::prelude::*;

use super::ClientError;
use crate::protocol as proto;
use crate::protocol::vk;
use crate::protocol::vk_op;
use crate::protocol::wire::Wire;
use crate::protocol::Handle;

verus! {

broadcast use crate::protocol::bytes::lemma_append_to_empty;

/// Server object kind for a `VkInstance` handle.
pub const KIND_INSTANCE: u8 = 1;

/// Server object kind for a `VkPhysicalDevice` handle.
pub const KIND_PHYSICAL_DEVICE: u8 = 2;

/// Server object kind for a `VkDevice` handle.
pub const KIND_DEVICE: u8 = 3;

/// Server object kind for a `VkQueue` handle.
pub const KIND_QUEUE: u8 = 4;

/// Server object kind for a `VkDeviceMemory` handle.
pub const KIND_DEVICE_MEMORY: u8 = 5;

/// Server object kind for a `VkBuffer` handle.
pub const KIND_BUFFER: u8 = 6;

/// Server object kind for a `VkCommandPool` handle.
pub const KIND_COMMAND_POOL: u8 = 7;

/// Server object kind for a `VkCommandBuffer` handle.
pub const KIND_COMMAND_BUFFER: u8 = 8;

/// The request frame of [`vk_op::CREATE_INSTANCE`], with which to issue
/// `vkCreateInstance`.
pub fn create_instance_request(app_api_version: u32, req_id: u32, seq: u64) -> (frame: Vec<u8>)
    ensures
        frame@ == proto::frame::request_bytes(
            vk_op::CREATE_INSTANCE,
            req_id,
            seq,
            (vk::CreateInstanceRequest { app_api_version }).bytes(),
        ),
{
    let mut body: Vec<u8> = Vec::new();
    (vk::CreateInstanceRequest { app_api_version }).encode(&mut body);
    proto::frame::plain_frame(
        proto::FrameKind::Request,
        vk_op::CREATE_INSTANCE,
        req_id,
        seq,
        &body,
    )
}

/// What [`vk_op::CREATE_INSTANCE`] yields on receiving `reply`.
pub open spec fn create_instance_result(reply: Seq<u8>) -> Result<Handle, ClientError> {
    match super::reply_body(reply, vk_op::CREATE_INSTANCE) {
        Err(e) => Err(e),
        Ok(body) => match vk::CreateInstanceResponse::parse(body) {
            Err(e) => Err(ClientError::Protocol(e)),
            Ok(resp) => super::handle_of_kind(resp.instance, KIND_INSTANCE),
        },
    }
}

/// Read the reply to [`vk_op::CREATE_INSTANCE`]: validate its opcode and kind,
/// decode the handle, and verify that it names an object of the right kind.
pub fn create_instance_reply(reply: &[u8]) -> (r: Result<Handle, ClientError>)
    ensures
        r == create_instance_result(reply@),
{
    let body: &[u8] = super::accept_reply(reply, vk_op::CREATE_INSTANCE)?;
    match vk::CreateInstanceResponse::decode(body) {
        Err(e) => Err(ClientError::Protocol(e)),
        Ok(resp) => super::check_kind(resp.instance, KIND_INSTANCE),
    }
}

/// The request for [`vk_op::CREATE_INSTANCE`] reaches a server as it was made,
/// and what the server answers is what the caller gets.
pub proof fn law_create_instance_exchange(
    app_api_version: u32,
    answer: Handle,
    req_id: u32,
    seq: u64,
    reply_seq: u64,
)
    requires
        answer.spec_kind() == KIND_INSTANCE,
    ensures
        crate::server::session::screen(
            proto::frame::request_bytes(
                vk_op::CREATE_INSTANCE,
                req_id,
                seq,
                (vk::CreateInstanceRequest { app_api_version }).bytes(),
            ),
            proto::DEFAULT_MAX_FRAME_BODY,
        ) matches Ok((h, body)) && h.opcode == vk_op::CREATE_INSTANCE && h.req_id == req_id
            && vk::CreateInstanceRequest::parse(body) == Ok::<
            vk::CreateInstanceRequest,
            proto::ProtocolError,
        >(
            vk::CreateInstanceRequest { app_api_version },
        ),
        create_instance_result(
            proto::frame::reply_bytes(
                vk_op::CREATE_INSTANCE,
                req_id,
                reply_seq,
                (vk::CreateInstanceResponse { instance: answer }).bytes(),
            ),
        ) == Ok::<Handle, ClientError>(answer),
{
    broadcast use crate::protocol::bytes::group_le_len;

    let req = vk::CreateInstanceRequest { app_api_version };
    super::law_request_passes(
        vk_op::CREATE_INSTANCE,
        req_id,
        seq,
        req.bytes(),
        proto::DEFAULT_MAX_FRAME_BODY,
    );
    req.law_whole();
    let resp = vk::CreateInstanceResponse { instance: answer };
    super::law_reply_accepted(vk_op::CREATE_INSTANCE, req_id, reply_seq, resp.bytes());
    resp.law_whole();
}

/// The request frame of [`vk_op::ENUMERATE_PHYSICAL_DEVICES`], with which to
/// issue `vkEnumeratePhysicalDevices`.
pub fn enumerate_physical_devices_request(
    instance: Handle,
    req_id: u32,
    seq: u64,
) -> (frame: Vec<u8>)
    ensures
        frame@ == proto::frame::request_bytes(
            vk_op::ENUMERATE_PHYSICAL_DEVICES,
            req_id,
            seq,
            (vk::EnumeratePhysicalDevicesRequest { instance }).bytes(),
        ),
{
    let mut body: Vec<u8> = Vec::new();
    (vk::EnumeratePhysicalDevicesRequest { instance }).encode(&mut body);
    proto::frame::plain_frame(
        proto::FrameKind::Request,
        vk_op::ENUMERATE_PHYSICAL_DEVICES,
        req_id,
        seq,
        &body,
    )
}

/// What [`vk_op::ENUMERATE_PHYSICAL_DEVICES`] yields on receiving `reply`.
pub open spec fn enumerate_physical_devices_result(
    reply: Seq<u8>,
) -> Result<Seq<Handle>, ClientError> {
    match super::reply_body(reply, vk_op::ENUMERATE_PHYSICAL_DEVICES) {
        Err(e) => Err(e),
        Ok(body) => match vk::parse_devices(body) {
            Err(e) => Err(ClientError::Protocol(e)),
            Ok(devices) => devices_of_kind(devices, KIND_PHYSICAL_DEVICE),
        },
    }
}

/// Read the reply to [`vk_op::ENUMERATE_PHYSICAL_DEVICES`]: validate its
/// opcode and kind, decode the handles, and verify that every one names an
/// object of the right kind.
pub fn enumerate_physical_devices_reply(reply: &[u8]) -> (r: Result<Vec<Handle>, ClientError>)
    ensures
        match r {
            Ok(devices) => enumerate_physical_devices_result(reply@) == Ok::<
                Seq<Handle>,
                ClientError,
            >(
                devices@,
            ),
            Err(e) => enumerate_physical_devices_result(reply@) == Err::<
                Seq<Handle>,
                ClientError,
            >(e),
        },
{
    let body: &[u8] = super::accept_reply(reply, vk_op::ENUMERATE_PHYSICAL_DEVICES)?;
    match vk::EnumeratePhysicalDevicesResponse::decode(body) {
        Err(e) => Err(ClientError::Protocol(e)),
        Ok(resp) => check_devices(resp.devices, KIND_PHYSICAL_DEVICE),
    }
}

/// The request for [`vk_op::ENUMERATE_PHYSICAL_DEVICES`] reaches a server as
/// it was made, and what the server answers is what the caller gets.
pub proof fn law_enumerate_physical_devices_exchange(
    instance: Handle,
    answer: Seq<Handle>,
    req_id: u32,
    seq: u64,
    reply_seq: u64,
)
    requires
        answer.len() < 0x1_0000_0000,
        forall|i: int|
            0 <= i < answer.len() ==> (#[trigger] answer[i]).spec_kind() == KIND_PHYSICAL_DEVICE,
    ensures
        crate::server::session::screen(
            proto::frame::request_bytes(
                vk_op::ENUMERATE_PHYSICAL_DEVICES,
                req_id,
                seq,
                (vk::EnumeratePhysicalDevicesRequest { instance }).bytes(),
            ),
            proto::DEFAULT_MAX_FRAME_BODY,
        ) matches Ok((h, body)) && h.opcode == vk_op::ENUMERATE_PHYSICAL_DEVICES
            && h.req_id == req_id
            && vk::EnumeratePhysicalDevicesRequest::parse(body) == Ok::<
            vk::EnumeratePhysicalDevicesRequest,
            proto::ProtocolError,
        >(
            vk::EnumeratePhysicalDevicesRequest { instance },
        ),
        enumerate_physical_devices_result(
            proto::frame::reply_bytes(
                vk_op::ENUMERATE_PHYSICAL_DEVICES,
                req_id,
                reply_seq,
                vk::device_list_bytes(answer),
            ),
        ) == Ok::<Seq<Handle>, ClientError>(answer),
{
    broadcast use crate::protocol::bytes::group_le_len;

    let req = vk::EnumeratePhysicalDevicesRequest { instance };
    super::law_request_passes(
        vk_op::ENUMERATE_PHYSICAL_DEVICES,
        req_id,
        seq,
        req.bytes(),
        proto::DEFAULT_MAX_FRAME_BODY,
    );
    req.law_whole();
    super::law_reply_accepted(
        vk_op::ENUMERATE_PHYSICAL_DEVICES,
        req_id,
        reply_seq,
        vk::device_list_bytes(answer),
    );
    vk::law_devices_whole(answer);
    lemma_no_other_kind(answer, KIND_PHYSICAL_DEVICE);
}

/// The request frame of [`vk_op::CREATE_DEVICE`], with which to issue
/// `vkCreateDevice`.
pub fn create_device_request(physical_device: Handle, req_id: u32, seq: u64) -> (frame: Vec<u8>)
    ensures
        frame@ == proto::frame::request_bytes(
            vk_op::CREATE_DEVICE,
            req_id,
            seq,
            (vk::CreateDeviceRequest { physical_device }).bytes(),
        ),
{
    let mut body: Vec<u8> = Vec::new();
    (vk::CreateDeviceRequest { physical_device }).encode(&mut body);
    proto::frame::plain_frame(proto::FrameKind::Request, vk_op::CREATE_DEVICE, req_id, seq, &body)
}

/// What [`vk_op::CREATE_DEVICE`] yields on receiving `reply`.
pub open spec fn create_device_result(reply: Seq<u8>) -> Result<Handle, ClientError> {
    match super::reply_body(reply, vk_op::CREATE_DEVICE) {
        Err(e) => Err(e),
        Ok(body) => match vk::CreateDeviceResponse::parse(body) {
            Err(e) => Err(ClientError::Protocol(e)),
            Ok(resp) => super::handle_of_kind(resp.device, KIND_DEVICE),
        },
    }
}

/// Read the reply to [`vk_op::CREATE_DEVICE`]: validate its opcode and kind,
/// decode the handle, and verify that it names an object of the right kind.
pub fn create_device_reply(reply: &[u8]) -> (r: Result<Handle, ClientError>)
    ensures
        r == create_device_result(reply@),
{
    let body: &[u8] = super::accept_reply(reply, vk_op::CREATE_DEVICE)?;
    match vk::CreateDeviceResponse::decode(body) {
        Err(e) => Err(ClientError::Protocol(e)),
        Ok(resp) => super::check_kind(resp.device, KIND_DEVICE),
    }
}

/// The request for [`vk_op::CREATE_DEVICE`] reaches a server as it was made,
/// and what the server answers is what the caller gets.
pub proof fn law_create_device_exchange(
    physical_device: Handle,
    answer: Handle,
    req_id: u32,
    seq: u64,
    reply_seq: u64,
)
    requires
        answer.spec_kind() == KIND_DEVICE,
    ensures
        crate::server::session::screen(
            proto::frame::request_bytes(
                vk_op::CREATE_DEVICE,
                req_id,
                seq,
                (vk::CreateDeviceRequest { physical_device }).bytes(),
            ),
            proto::DEFAULT_MAX_FRAME_BODY,
        ) matches Ok((h, body)) && h.opcode == vk_op::CREATE_DEVICE && h.req_id == req_id
            && vk::CreateDeviceRequest::parse(body) == Ok::<
            vk::CreateDeviceRequest,
            proto::ProtocolError,
        >(
            vk::CreateDeviceRequest { physical_device },
        ),
        create_device_result(
            proto::frame::reply_bytes(
                vk_op::CREATE_DEVICE,
                req_id,
                reply_seq,
                (vk::CreateDeviceResponse { device: answer }).bytes(),
            ),
        ) == Ok::<Handle, ClientError>(answer),
{
    broadcast use crate::protocol::bytes::group_le_len;

    let req = vk::CreateDeviceRequest { physical_device };
    super::law_request_passes(
        vk_op::CREATE_DEVICE,
        req_id,
        seq,
        req.bytes(),
        proto::DEFAULT_MAX_FRAME_BODY,
    );
    req.law_whole();
    let resp = vk::CreateDeviceResponse { device: answer };
    super::law_reply_accepted(vk_op::CREATE_DEVICE, req_id, reply_seq, resp.bytes());
    resp.law_whole();
}

/// The request frame of [`vk_op::GET_DEVICE_QUEUE`], with which to issue
/// `vkGetDeviceQueue`.
pub fn get_device_queue_request(
    device: Handle,
    queue_family_index: u32,
    queue_index: u32,
    req_id: u32,
    seq: u64,
) -> (frame: Vec<u8>)
    ensures
        frame@ == proto::frame::request_bytes(
            vk_op::GET_DEVICE_QUEUE,
            req_id,
            seq,
            (vk::GetDeviceQueueRequest { device, queue_family_index, queue_index }).bytes(),
        ),
{
    let mut body: Vec<u8> = Vec::new();
    (vk::GetDeviceQueueRequest { device, queue_family_index, queue_index }).encode(&mut body);
    proto::frame::plain_frame(
        proto::FrameKind::Request,
        vk_op::GET_DEVICE_QUEUE,
        req_id,
        seq,
        &body,
    )
}

/// What [`vk_op::GET_DEVICE_QUEUE`] yields on receiving `reply`.
pub open spec fn get_device_queue_result(reply: Seq<u8>) -> Result<Handle, ClientError> {
    match super::reply_body(reply, vk_op::GET_DEVICE_QUEUE) {
        Err(e) => Err(e),
        Ok(body) => match vk::GetDeviceQueueResponse::parse(body) {
            Err(e) => Err(ClientError::Protocol(e)),
            Ok(resp) => super::handle_of_kind(resp.queue, KIND_QUEUE),
        },
    }
}

/// Read the reply to [`vk_op::GET_DEVICE_QUEUE`]: validate its opcode and
/// kind, decode the handle, and verify that it names an object of the right
/// kind.
pub fn get_device_queue_reply(reply: &[u8]) -> (r: Result<Handle, ClientError>)
    ensures
        r == get_device_queue_result(reply@),
{
    let body: &[u8] = super::accept_reply(reply, vk_op::GET_DEVICE_QUEUE)?;
    match vk::GetDeviceQueueResponse::decode(body) {
        Err(e) => Err(ClientError::Protocol(e)),
        Ok(resp) => super::check_kind(resp.queue, KIND_QUEUE),
    }
}

/// The request for [`vk_op::GET_DEVICE_QUEUE`] reaches a server as it was
/// made, and what the server answers is what the caller gets.
pub proof fn law_get_device_queue_exchange(
    device: Handle,
    queue_family_index: u32,
    queue_index: u32,
    answer: Handle,
    req_id: u32,
    seq: u64,
    reply_seq: u64,
)
    requires
        answer.spec_kind() == KIND_QUEUE,
    ensures
        crate::server::session::screen(
            proto::frame::request_bytes(
                vk_op::GET_DEVICE_QUEUE,
                req_id,
                seq,
                (vk::GetDeviceQueueRequest { device, queue_family_index, queue_index }).bytes(),
            ),
            proto::DEFAULT_MAX_FRAME_BODY,
        ) matches Ok((h, body)) && h.opcode == vk_op::GET_DEVICE_QUEUE && h.req_id == req_id
            && vk::GetDeviceQueueRequest::parse(body) == Ok::<
            vk::GetDeviceQueueRequest,
            proto::ProtocolError,
        >(
            vk::GetDeviceQueueRequest { device, queue_family_index, queue_index },
        ),
        get_device_queue_result(
            proto::frame::reply_bytes(
                vk_op::GET_DEVICE_QUEUE,
                req_id,
                reply_seq,
                (vk::GetDeviceQueueResponse { queue: answer }).bytes(),
            ),
        ) == Ok::<Handle, ClientError>(answer),
{
    broadcast use crate::protocol::bytes::group_le_len;

    let req = vk::GetDeviceQueueRequest { device, queue_family_index, queue_index };
    super::law_request_passes(
        vk_op::GET_DEVICE_QUEUE,
        req_id,
        seq,
        req.bytes(),
        proto::DEFAULT_MAX_FRAME_BODY,
    );
    req.law_whole();
    let resp = vk::GetDeviceQueueResponse { queue: answer };
    super::law_reply_accepted(vk_op::GET_DEVICE_QUEUE, req_id, reply_seq, resp.bytes());
    resp.law_whole();
}

/// The request frame of [`vk_op::ALLOCATE_MEMORY`], with which to issue
/// `vkAllocateMemory`.
pub fn allocate_memory_request(
    device: Handle,
    size: u64,
    req_id: u32,
    seq: u64,
) -> (frame: Vec<u8>)
    ensures
        frame@ == proto::frame::request_bytes(
            vk_op::ALLOCATE_MEMORY,
            req_id,
            seq,
            (vk::AllocateMemoryRequest { device, size }).bytes(),
        ),
{
    let mut body: Vec<u8> = Vec::new();
    (vk::AllocateMemoryRequest { device, size }).encode(&mut body);
    proto::frame::plain_frame(
        proto::FrameKind::Request,
        vk_op::ALLOCATE_MEMORY,
        req_id,
        seq,
        &body,
    )
}

/// What [`vk_op::ALLOCATE_MEMORY`] yields on receiving `reply`.
pub open spec fn allocate_memory_result(reply: Seq<u8>) -> Result<Handle, ClientError> {
    match super::reply_body(reply, vk_op::ALLOCATE_MEMORY) {
        Err(e) => Err(e),
        Ok(body) => match vk::AllocateMemoryResponse::parse(body) {
            Err(e) => Err(ClientError::Protocol(e)),
            Ok(resp) => super::handle_of_kind(resp.memory, KIND_DEVICE_MEMORY),
        },
    }
}

/// Read the reply to [`vk_op::ALLOCATE_MEMORY`]: validate its opcode and kind,
/// decode the handle, and verify that it names an object of the right kind.
pub fn allocate_memory_reply(reply: &[u8]) -> (r: Result<Handle, ClientError>)
    ensures
        r == allocate_memory_result(reply@),
{
    let body: &[u8] = super::accept_reply(reply, vk_op::ALLOCATE_MEMORY)?;
    match vk::AllocateMemoryResponse::decode(body) {
        Err(e) => Err(ClientError::Protocol(e)),
        Ok(resp) => super::check_kind(resp.memory, KIND_DEVICE_MEMORY),
    }
}

/// The request for [`vk_op::ALLOCATE_MEMORY`] reaches a server as it was made,
/// and what the server answers is what the caller gets.
pub proof fn law_allocate_memory_exchange(
    device: Handle,
    size: u64,
    answer: Handle,
    req_id: u32,
    seq: u64,
    reply_seq: u64,
)
    requires
        answer.spec_kind() == KIND_DEVICE_MEMORY,
    ensures
        crate::server::session::screen(
            proto::frame::request_bytes(
                vk_op::ALLOCATE_MEMORY,
                req_id,
                seq,
                (vk::AllocateMemoryRequest { device, size }).bytes(),
            ),
            proto::DEFAULT_MAX_FRAME_BODY,
        ) matches Ok((h, body)) && h.opcode == vk_op::ALLOCATE_MEMORY && h.req_id == req_id
            && vk::AllocateMemoryRequest::parse(body) == Ok::<
            vk::AllocateMemoryRequest,
            proto::ProtocolError,
        >(
            vk::AllocateMemoryRequest { device, size },
        ),
        allocate_memory_result(
            proto::frame::reply_bytes(
                vk_op::ALLOCATE_MEMORY,
                req_id,
                reply_seq,
                (vk::AllocateMemoryResponse { memory: answer }).bytes(),
            ),
        ) == Ok::<Handle, ClientError>(answer),
{
    broadcast use crate::protocol::bytes::group_le_len;

    let req = vk::AllocateMemoryRequest { device, size };
    super::law_request_passes(
        vk_op::ALLOCATE_MEMORY,
        req_id,
        seq,
        req.bytes(),
        proto::DEFAULT_MAX_FRAME_BODY,
    );
    req.law_whole();
    let resp = vk::AllocateMemoryResponse { memory: answer };
    super::law_reply_accepted(vk_op::ALLOCATE_MEMORY, req_id, reply_seq, resp.bytes());
    resp.law_whole();
}

/// The request frame of [`vk_op::CREATE_BUFFER`], with which to issue
/// `vkCreateBuffer`.
pub fn create_buffer_request(
    device: Handle,
    size: u64,
    usage: u32,
    req_id: u32,
    seq: u64,
) -> (frame: Vec<u8>)
    ensures
        frame@ == proto::frame::request_bytes(
            vk_op::CREATE_BUFFER,
            req_id,
            seq,
            (vk::CreateBufferRequest { device, size, usage }).bytes(),
        ),
{
    let mut body: Vec<u8> = Vec::new();
    (vk::CreateBufferRequest { device, size, usage }).encode(&mut body);
    proto::frame::plain_frame(proto::FrameKind::Request, vk_op::CREATE_BUFFER, req_id, seq, &body)
}

/// What [`vk_op::CREATE_BUFFER`] yields on receiving `reply`.
pub open spec fn create_buffer_result(reply: Seq<u8>) -> Result<Handle, ClientError> {
    match super::reply_body(reply, vk_op::CREATE_BUFFER) {
        Err(e) => Err(e),
        Ok(body) => match vk::CreateBufferResponse::parse(body) {
            Err(e) => Err(ClientError::Protocol(e)),
            Ok(resp) => super::handle_of_kind(resp.buffer, KIND_BUFFER),
        },
    }
}

/// Read the reply to [`vk_op::CREATE_BUFFER`]: validate its opcode and kind,
/// decode the handle, and verify that it names an object of the right kind.
pub fn create_buffer_reply(reply: &[u8]) -> (r: Result<Handle, ClientError>)
    ensures
        r == create_buffer_result(reply@),
{
    let body: &[u8] = super::accept_reply(reply, vk_op::CREATE_BUFFER)?;
    match vk::CreateBufferResponse::decode(body) {
        Err(e) => Err(ClientError::Protocol(e)),
        Ok(resp) => super::check_kind(resp.buffer, KIND_BUFFER),
    }
}

/// The request for [`vk_op::CREATE_BUFFER`] reaches a server as it was made,
/// and what the server answers is what the caller gets.
pub proof fn law_create_buffer_exchange(
    device: Handle,
    size: u64,
    usage: u32,
    answer: Handle,
    req_id: u32,
    seq: u64,
    reply_seq: u64,
)
    requires
        answer.spec_kind() == KIND_BUFFER,
    ensures
        crate::server::session::screen(
            proto::frame::request_bytes(
                vk_op::CREATE_BUFFER,
                req_id,
                seq,
                (vk::CreateBufferRequest { device, size, usage }).bytes(),
            ),
            proto::DEFAULT_MAX_FRAME_BODY,
        ) matches Ok((h, body)) && h.opcode == vk_op::CREATE_BUFFER && h.req_id == req_id
            && vk::CreateBufferRequest::parse(body) == Ok::<
            vk::CreateBufferRequest,
            proto::ProtocolError,
        >(
            vk::CreateBufferRequest { device, size, usage },
        ),
        create_buffer_result(
            proto::frame::reply_bytes(
                vk_op::CREATE_BUFFER,
                req_id,
                reply_seq,
                (vk::CreateBufferResponse { buffer: answer }).bytes(),
            ),
        ) == Ok::<Handle, ClientError>(answer),
{
    broadcast use crate::protocol::bytes::group_le_len;

    let req = vk::CreateBufferRequest { device, size, usage };
    super::law_request_passes(
        vk_op::CREATE_BUFFER,
        req_id,
        seq,
        req.bytes(),
        proto::DEFAULT_MAX_FRAME_BODY,
    );
    req.law_whole();
    let resp = vk::CreateBufferResponse { buffer: answer };
    super::law_reply_accepted(vk_op::CREATE_BUFFER, req_id, reply_seq, resp.bytes());
    resp.law_whole();
}

/// The request frame of [`vk_op::BIND_BUFFER_MEMORY`], with which to issue
/// `vkBindBufferMemory`, binding `memory` to `buffer` at `offset`.
pub fn bind_buffer_memory_request(
    buffer: Handle,
    memory: Handle,
    offset: u64,
    req_id: u32,
    seq: u64,
) -> (frame: Vec<u8>)
    ensures
        frame@ == proto::frame::request_bytes(
            vk_op::BIND_BUFFER_MEMORY,
            req_id,
            seq,
            (vk::BindBufferMemoryRequest { buffer, memory, offset }).bytes(),
        ),
{
    let mut body: Vec<u8> = Vec::new();
    (vk::BindBufferMemoryRequest { buffer, memory, offset }).encode(&mut body);
    proto::frame::plain_frame(
        proto::FrameKind::Request,
        vk_op::BIND_BUFFER_MEMORY,
        req_id,
        seq,
        &body,
    )
}

/// What [`vk_op::BIND_BUFFER_MEMORY`] yields on receiving `reply`.
pub open spec fn bind_buffer_memory_result(reply: Seq<u8>) -> Result<(), ClientError> {
    match super::reply_body(reply, vk_op::BIND_BUFFER_MEMORY) {
        Err(e) => Err(e),
        Ok(_) => Ok(()),
    }
}

/// Read the reply to [`vk_op::BIND_BUFFER_MEMORY`]: validate its opcode and
/// kind. The reply body is an empty acknowledgement, so nothing is decoded.
pub fn bind_buffer_memory_reply(reply: &[u8]) -> (r: Result<(), ClientError>)
    ensures
        r == bind_buffer_memory_result(reply@),
{
    let _body: &[u8] = super::accept_reply(reply, vk_op::BIND_BUFFER_MEMORY)?;
    Ok(())
}

/// The request for [`vk_op::BIND_BUFFER_MEMORY`] reaches a server as it was
/// made, and what the server answers is what the caller gets.
pub proof fn law_bind_buffer_memory_exchange(
    buffer: Handle,
    memory: Handle,
    offset: u64,
    req_id: u32,
    seq: u64,
    reply_seq: u64,
)
    ensures
        crate::server::session::screen(
            proto::frame::request_bytes(
                vk_op::BIND_BUFFER_MEMORY,
                req_id,
                seq,
                (vk::BindBufferMemoryRequest { buffer, memory, offset }).bytes(),
            ),
            proto::DEFAULT_MAX_FRAME_BODY,
        ) matches Ok((h, body)) && h.opcode == vk_op::BIND_BUFFER_MEMORY && h.req_id == req_id
            && vk::BindBufferMemoryRequest::parse(body) == Ok::<
            vk::BindBufferMemoryRequest,
            proto::ProtocolError,
        >(
            vk::BindBufferMemoryRequest { buffer, memory, offset },
        ),
        bind_buffer_memory_result(
            proto::frame::reply_bytes(
                vk_op::BIND_BUFFER_MEMORY,
                req_id,
                reply_seq,
                seq![],
            ),
        ) == Ok::<(), ClientError>(()),
{
    broadcast use crate::protocol::bytes::group_le_len;

    let req = vk::BindBufferMemoryRequest { buffer, memory, offset };
    super::law_request_passes(
        vk_op::BIND_BUFFER_MEMORY,
        req_id,
        seq,
        req.bytes(),
        proto::DEFAULT_MAX_FRAME_BODY,
    );
    req.law_whole();
    super::law_reply_accepted(vk_op::BIND_BUFFER_MEMORY, req_id, reply_seq, seq![]);
}

/// The request frame of [`vk_op::CREATE_COMMAND_POOL`], with which to issue
/// `vkCreateCommandPool`.
pub fn create_command_pool_request(
    device: Handle,
    queue_family_index: u32,
    req_id: u32,
    seq: u64,
) -> (frame: Vec<u8>)
    ensures
        frame@ == proto::frame::request_bytes(
            vk_op::CREATE_COMMAND_POOL,
            req_id,
            seq,
            (vk::CreateCommandPoolRequest { device, queue_family_index }).bytes(),
        ),
{
    let mut body: Vec<u8> = Vec::new();
    (vk::CreateCommandPoolRequest { device, queue_family_index }).encode(&mut body);
    proto::frame::plain_frame(
        proto::FrameKind::Request,
        vk_op::CREATE_COMMAND_POOL,
        req_id,
        seq,
        &body,
    )
}

/// What [`vk_op::CREATE_COMMAND_POOL`] yields on receiving `reply`.
pub open spec fn create_command_pool_result(reply: Seq<u8>) -> Result<Handle, ClientError> {
    match super::reply_body(reply, vk_op::CREATE_COMMAND_POOL) {
        Err(e) => Err(e),
        Ok(body) => match vk::CreateCommandPoolResponse::parse(body) {
            Err(e) => Err(ClientError::Protocol(e)),
            Ok(resp) => super::handle_of_kind(resp.pool, KIND_COMMAND_POOL),
        },
    }
}

/// Read the reply to [`vk_op::CREATE_COMMAND_POOL`]: validate its opcode and
/// kind, decode the handle, and verify that it names an object of the right
/// kind.
pub fn create_command_pool_reply(reply: &[u8]) -> (r: Result<Handle, ClientError>)
    ensures
        r == create_command_pool_result(reply@),
{
    let body: &[u8] = super::accept_reply(reply, vk_op::CREATE_COMMAND_POOL)?;
    match vk::CreateCommandPoolResponse::decode(body) {
        Err(e) => Err(ClientError::Protocol(e)),
        Ok(resp) => super::check_kind(resp.pool, KIND_COMMAND_POOL),
    }
}

/// The request for [`vk_op::CREATE_COMMAND_POOL`] reaches a server as it was
/// made, and what the server answers is what the caller gets.
pub proof fn law_create_command_pool_exchange(
    device: Handle,
    queue_family_index: u32,
    answer: Handle,
    req_id: u32,
    seq: u64,
    reply_seq: u64,
)
    requires
        answer.spec_kind() == KIND_COMMAND_POOL,
    ensures
        crate::server::session::screen(
            proto::frame::request_bytes(
                vk_op::CREATE_COMMAND_POOL,
                req_id,
                seq,
                (vk::CreateCommandPoolRequest { device, queue_family_index }).bytes(),
            ),
            proto::DEFAULT_MAX_FRAME_BODY,
        ) matches Ok((h, body)) && h.opcode == vk_op::CREATE_COMMAND_POOL && h.req_id == req_id
            && vk::CreateCommandPoolRequest::parse(body) == Ok::<
            vk::CreateCommandPoolRequest,
            proto::ProtocolError,
        >(
            vk::CreateCommandPoolRequest { device, queue_family_index },
        ),
        create_command_pool_result(
            proto::frame::reply_bytes(
                vk_op::CREATE_COMMAND_POOL,
                req_id,
                reply_seq,
                (vk::CreateCommandPoolResponse { pool: answer }).bytes(),
            ),
        ) == Ok::<Handle, ClientError>(answer),
{
    broadcast use crate::protocol::bytes::group_le_len;

    let req = vk::CreateCommandPoolRequest { device, queue_family_index };
    super::law_request_passes(
        vk_op::CREATE_COMMAND_POOL,
        req_id,
        seq,
        req.bytes(),
        proto::DEFAULT_MAX_FRAME_BODY,
    );
    req.law_whole();
    let resp = vk::CreateCommandPoolResponse { pool: answer };
    super::law_reply_accepted(vk_op::CREATE_COMMAND_POOL, req_id, reply_seq, resp.bytes());
    resp.law_whole();
}

/// The request frame of [`vk_op::ALLOCATE_COMMAND_BUFFER`], with which to
/// issue `vkAllocateCommandBuffers`.
pub fn allocate_command_buffer_request(pool: Handle, req_id: u32, seq: u64) -> (frame: Vec<u8>)
    ensures
        frame@ == proto::frame::request_bytes(
            vk_op::ALLOCATE_COMMAND_BUFFER,
            req_id,
            seq,
            (vk::AllocateCommandBufferRequest { pool }).bytes(),
        ),
{
    let mut body: Vec<u8> = Vec::new();
    (vk::AllocateCommandBufferRequest { pool }).encode(&mut body);
    proto::frame::plain_frame(
        proto::FrameKind::Request,
        vk_op::ALLOCATE_COMMAND_BUFFER,
        req_id,
        seq,
        &body,
    )
}

/// What [`vk_op::ALLOCATE_COMMAND_BUFFER`] yields on receiving `reply`.
pub open spec fn allocate_command_buffer_result(reply: Seq<u8>) -> Result<Handle, ClientError> {
    match super::reply_body(reply, vk_op::ALLOCATE_COMMAND_BUFFER) {
        Err(e) => Err(e),
        Ok(body) => match vk::AllocateCommandBufferResponse::parse(body) {
            Err(e) => Err(ClientError::Protocol(e)),
            Ok(resp) => super::handle_of_kind(resp.command_buffer, KIND_COMMAND_BUFFER),
        },
    }
}

/// Read the reply to [`vk_op::ALLOCATE_COMMAND_BUFFER`]: validate its opcode
/// and kind, decode the handle, and verify that it names an object of the
/// right kind.
pub fn allocate_command_buffer_reply(reply: &[u8]) -> (r: Result<Handle, ClientError>)
    ensures
        r == allocate_command_buffer_result(reply@),
{
    let body: &[u8] = super::accept_reply(reply, vk_op::ALLOCATE_COMMAND_BUFFER)?;
    match vk::AllocateCommandBufferResponse::decode(body) {
        Err(e) => Err(ClientError::Protocol(e)),
        Ok(resp) => super::check_kind(resp.command_buffer, KIND_COMMAND_BUFFER),
    }
}

/// The request for [`vk_op::ALLOCATE_COMMAND_BUFFER`] reaches a server as it
/// was made, and what the server answers is what the caller gets.
pub proof fn law_allocate_command_buffer_exchange(
    pool: Handle,
    answer: Handle,
    req_id: u32,
    seq: u64,
    reply_seq: u64,
)
    requires
        answer.spec_kind() == KIND_COMMAND_BUFFER,
    ensures
        crate::server::session::screen(
            proto::frame::request_bytes(
                vk_op::ALLOCATE_COMMAND_BUFFER,
                req_id,
                seq,
                (vk::AllocateCommandBufferRequest { pool }).bytes(),
            ),
            proto::DEFAULT_MAX_FRAME_BODY,
        ) matches Ok((h, body)) && h.opcode == vk_op::ALLOCATE_COMMAND_BUFFER && h.req_id == req_id
            && vk::AllocateCommandBufferRequest::parse(body) == Ok::<
            vk::AllocateCommandBufferRequest,
            proto::ProtocolError,
        >(
            vk::AllocateCommandBufferRequest { pool },
        ),
        allocate_command_buffer_result(
            proto::frame::reply_bytes(
                vk_op::ALLOCATE_COMMAND_BUFFER,
                req_id,
                reply_seq,
                (vk::AllocateCommandBufferResponse { command_buffer: answer }).bytes(),
            ),
        ) == Ok::<Handle, ClientError>(answer),
{
    broadcast use crate::protocol::bytes::group_le_len;

    let req = vk::AllocateCommandBufferRequest { pool };
    super::law_request_passes(
        vk_op::ALLOCATE_COMMAND_BUFFER,
        req_id,
        seq,
        req.bytes(),
        proto::DEFAULT_MAX_FRAME_BODY,
    );
    req.law_whole();
    let resp = vk::AllocateCommandBufferResponse { command_buffer: answer };
    super::law_reply_accepted(vk_op::ALLOCATE_COMMAND_BUFFER, req_id, reply_seq, resp.bytes());
    resp.law_whole();
}

/// The request frame of [`vk_op::QUEUE_SUBMIT`], with which to issue
/// `vkQueueSubmit`, submitting `command_buffer` to `queue`.
pub fn queue_submit_request(
    queue: Handle,
    command_buffer: Handle,
    req_id: u32,
    seq: u64,
) -> (frame: Vec<u8>)
    ensures
        frame@ == proto::frame::request_bytes(
            vk_op::QUEUE_SUBMIT,
            req_id,
            seq,
            (vk::QueueSubmitRequest { queue, command_buffer }).bytes(),
        ),
{
    let mut body: Vec<u8> = Vec::new();
    (vk::QueueSubmitRequest { queue, command_buffer }).encode(&mut body);
    proto::frame::plain_frame(proto::FrameKind::Request, vk_op::QUEUE_SUBMIT, req_id, seq, &body)
}

/// What [`vk_op::QUEUE_SUBMIT`] yields on receiving `reply`.
pub open spec fn queue_submit_result(reply: Seq<u8>) -> Result<(), ClientError> {
    match super::reply_body(reply, vk_op::QUEUE_SUBMIT) {
        Err(e) => Err(e),
        Ok(_) => Ok(()),
    }
}

/// Read the reply to [`vk_op::QUEUE_SUBMIT`]: validate its opcode and kind.
/// The reply body is an empty acknowledgement, so nothing is decoded.
pub fn queue_submit_reply(reply: &[u8]) -> (r: Result<(), ClientError>)
    ensures
        r == queue_submit_result(reply@),
{
    let _body: &[u8] = super::accept_reply(reply, vk_op::QUEUE_SUBMIT)?;
    Ok(())
}

/// The request for [`vk_op::QUEUE_SUBMIT`] reaches a server as it was made,
/// and what the server answers is what the caller gets.
pub proof fn law_queue_submit_exchange(
    queue: Handle,
    command_buffer: Handle,
    req_id: u32,
    seq: u64,
    reply_seq: u64,
)
    ensures
        crate::server::session::screen(
            proto::frame::request_bytes(
                vk_op::QUEUE_SUBMIT,
                req_id,
                seq,
                (vk::QueueSubmitRequest { queue, command_buffer }).bytes(),
            ),
            proto::DEFAULT_MAX_FRAME_BODY,
        ) matches Ok((h, body)) && h.opcode == vk_op::QUEUE_SUBMIT && h.req_id == req_id
            && vk::QueueSubmitRequest::parse(body) == Ok::<
            vk::QueueSubmitRequest,
            proto::ProtocolError,
        >(
            vk::QueueSubmitRequest { queue, command_buffer },
        ),
        queue_submit_result(
            proto::frame::reply_bytes(
                vk_op::QUEUE_SUBMIT,
                req_id,
                reply_seq,
                seq![],
            ),
        ) == Ok::<(), ClientError>(()),
{
    broadcast use crate::protocol::bytes::group_le_len;

    let req = vk::QueueSubmitRequest { queue, command_buffer };
    super::law_request_passes(
        vk_op::QUEUE_SUBMIT,
        req_id,
        seq,
        req.bytes(),
        proto::DEFAULT_MAX_FRAME_BODY,
    );
    req.law_whole();
    super::law_reply_accepted(vk_op::QUEUE_SUBMIT, req_id, reply_seq, seq![]);
}

/// The request frame of [`vk_op::CMD_COPY_BUFFER`], with which to issue
/// `vkCmdCopyBuffer`, recording a `src` → `dst` copy of `size` bytes into
/// `command_buffer`.
pub fn cmd_copy_buffer_request(
    command_buffer: Handle,
    src: Handle,
    dst: Handle,
    size: u64,
    req_id: u32,
    seq: u64,
) -> (frame: Vec<u8>)
    ensures
        frame@ == proto::frame::request_bytes(
            vk_op::CMD_COPY_BUFFER,
            req_id,
            seq,
            (vk::CmdCopyBufferRequest { command_buffer, src, dst, size }).bytes(),
        ),
{
    let mut body: Vec<u8> = Vec::new();
    (vk::CmdCopyBufferRequest { command_buffer, src, dst, size }).encode(&mut body);
    proto::frame::plain_frame(
        proto::FrameKind::Request,
        vk_op::CMD_COPY_BUFFER,
        req_id,
        seq,
        &body,
    )
}

/// What [`vk_op::CMD_COPY_BUFFER`] yields on receiving `reply`.
pub open spec fn cmd_copy_buffer_result(reply: Seq<u8>) -> Result<(), ClientError> {
    match super::reply_body(reply, vk_op::CMD_COPY_BUFFER) {
        Err(e) => Err(e),
        Ok(_) => Ok(()),
    }
}

/// Read the reply to [`vk_op::CMD_COPY_BUFFER`]: validate its opcode and kind.
/// The reply body is an empty acknowledgement, so nothing is decoded.
pub fn cmd_copy_buffer_reply(reply: &[u8]) -> (r: Result<(), ClientError>)
    ensures
        r == cmd_copy_buffer_result(reply@),
{
    let _body: &[u8] = super::accept_reply(reply, vk_op::CMD_COPY_BUFFER)?;
    Ok(())
}

/// The request for [`vk_op::CMD_COPY_BUFFER`] reaches a server as it was made,
/// and what the server answers is what the caller gets.
pub proof fn law_cmd_copy_buffer_exchange(
    command_buffer: Handle,
    src: Handle,
    dst: Handle,
    size: u64,
    req_id: u32,
    seq: u64,
    reply_seq: u64,
)
    ensures
        crate::server::session::screen(
            proto::frame::request_bytes(
                vk_op::CMD_COPY_BUFFER,
                req_id,
                seq,
                (vk::CmdCopyBufferRequest { command_buffer, src, dst, size }).bytes(),
            ),
            proto::DEFAULT_MAX_FRAME_BODY,
        ) matches Ok((h, body)) && h.opcode == vk_op::CMD_COPY_BUFFER && h.req_id == req_id
            && vk::CmdCopyBufferRequest::parse(body) == Ok::<
            vk::CmdCopyBufferRequest,
            proto::ProtocolError,
        >(
            vk::CmdCopyBufferRequest { command_buffer, src, dst, size },
        ),
        cmd_copy_buffer_result(
            proto::frame::reply_bytes(
                vk_op::CMD_COPY_BUFFER,
                req_id,
                reply_seq,
                seq![],
            ),
        ) == Ok::<(), ClientError>(()),
{
    broadcast use crate::protocol::bytes::group_le_len;

    let req = vk::CmdCopyBufferRequest { command_buffer, src, dst, size };
    super::law_request_passes(
        vk_op::CMD_COPY_BUFFER,
        req_id,
        seq,
        req.bytes(),
        proto::DEFAULT_MAX_FRAME_BODY,
    );
    req.law_whole();
    super::law_reply_accepted(vk_op::CMD_COPY_BUFFER, req_id, reply_seq, seq![]);
}

/// The request frame of [`vk_op::CMD_DRAW`], with which to issue `vkCmdDraw`,
/// recording a non-indexed draw of `vertex_count` vertices across
/// `instance_count` instances into `command_buffer`.
pub fn cmd_draw_request(
    command_buffer: Handle,
    vertex_count: u32,
    instance_count: u32,
    req_id: u32,
    seq: u64,
) -> (frame: Vec<u8>)
    ensures
        frame@ == proto::frame::request_bytes(
            vk_op::CMD_DRAW,
            req_id,
            seq,
            (vk::CmdDrawRequest { command_buffer, vertex_count, instance_count }).bytes(),
        ),
{
    let mut body: Vec<u8> = Vec::new();
    (vk::CmdDrawRequest { command_buffer, vertex_count, instance_count }).encode(&mut body);
    proto::frame::plain_frame(proto::FrameKind::Request, vk_op::CMD_DRAW, req_id, seq, &body)
}

/// What [`vk_op::CMD_DRAW`] yields on receiving `reply`.
pub open spec fn cmd_draw_result(reply: Seq<u8>) -> Result<(), ClientError> {
    match super::reply_body(reply, vk_op::CMD_DRAW) {
        Err(e) => Err(e),
        Ok(_) => Ok(()),
    }
}

/// Read the reply to [`vk_op::CMD_DRAW`]: validate its opcode and kind. The
/// reply body is an empty acknowledgement, so nothing is decoded.
pub fn cmd_draw_reply(reply: &[u8]) -> (r: Result<(), ClientError>)
    ensures
        r == cmd_draw_result(reply@),
{
    let _body: &[u8] = super::accept_reply(reply, vk_op::CMD_DRAW)?;
    Ok(())
}

/// The request for [`vk_op::CMD_DRAW`] reaches a server as it was made, and
/// what the server answers is what the caller gets.
pub proof fn law_cmd_draw_exchange(
    command_buffer: Handle,
    vertex_count: u32,
    instance_count: u32,
    req_id: u32,
    seq: u64,
    reply_seq: u64,
)
    ensures
        crate::server::session::screen(
            proto::frame::request_bytes(
                vk_op::CMD_DRAW,
                req_id,
                seq,
                (vk::CmdDrawRequest { command_buffer, vertex_count, instance_count }).bytes(),
            ),
            proto::DEFAULT_MAX_FRAME_BODY,
        ) matches Ok((h, body)) && h.opcode == vk_op::CMD_DRAW && h.req_id == req_id
            && vk::CmdDrawRequest::parse(body) == Ok::<vk::CmdDrawRequest, proto::ProtocolError>(
            vk::CmdDrawRequest { command_buffer, vertex_count, instance_count },
        ),
        cmd_draw_result(
            proto::frame::reply_bytes(
                vk_op::CMD_DRAW,
                req_id,
                reply_seq,
                seq![],
            ),
        ) == Ok::<(), ClientError>(()),
{
    broadcast use crate::protocol::bytes::group_le_len;

    let req = vk::CmdDrawRequest { command_buffer, vertex_count, instance_count };
    super::law_request_passes(
        vk_op::CMD_DRAW,
        req_id,
        seq,
        req.bytes(),
        proto::DEFAULT_MAX_FRAME_BODY,
    );
    req.law_whole();
    super::law_reply_accepted(vk_op::CMD_DRAW, req_id, reply_seq, seq![]);
}

/// The request frame of [`vk_op::DESTROY_BUFFER`], with which to issue
/// `vkDestroyBuffer`, destroying `buffer`.
pub fn destroy_buffer_request(buffer: Handle, req_id: u32, seq: u64) -> (frame: Vec<u8>)
    ensures
        frame@ == proto::frame::request_bytes(
            vk_op::DESTROY_BUFFER,
            req_id,
            seq,
            (vk::DestroyBufferRequest { buffer }).bytes(),
        ),
{
    let mut body: Vec<u8> = Vec::new();
    (vk::DestroyBufferRequest { buffer }).encode(&mut body);
    proto::frame::plain_frame(
        proto::FrameKind::Request,
        vk_op::DESTROY_BUFFER,
        req_id,
        seq,
        &body,
    )
}

/// What [`vk_op::DESTROY_BUFFER`] yields on receiving `reply`.
pub open spec fn destroy_buffer_result(reply: Seq<u8>) -> Result<(), ClientError> {
    match super::reply_body(reply, vk_op::DESTROY_BUFFER) {
        Err(e) => Err(e),
        Ok(_) => Ok(()),
    }
}

/// Read the reply to [`vk_op::DESTROY_BUFFER`]: validate its opcode and kind.
/// The reply body is an empty acknowledgement, so nothing is decoded.
pub fn destroy_buffer_reply(reply: &[u8]) -> (r: Result<(), ClientError>)
    ensures
        r == destroy_buffer_result(reply@),
{
    let _body: &[u8] = super::accept_reply(reply, vk_op::DESTROY_BUFFER)?;
    Ok(())
}

/// The request for [`vk_op::DESTROY_BUFFER`] reaches a server as it was made,
/// and what the server answers is what the caller gets.
pub proof fn law_destroy_buffer_exchange(
    buffer: Handle,
    req_id: u32,
    seq: u64,
    reply_seq: u64,
)
    ensures
        crate::server::session::screen(
            proto::frame::request_bytes(
                vk_op::DESTROY_BUFFER,
                req_id,
                seq,
                (vk::DestroyBufferRequest { buffer }).bytes(),
            ),
            proto::DEFAULT_MAX_FRAME_BODY,
        ) matches Ok((h, body)) && h.opcode == vk_op::DESTROY_BUFFER && h.req_id == req_id
            && vk::DestroyBufferRequest::parse(body) == Ok::<
            vk::DestroyBufferRequest,
            proto::ProtocolError,
        >(
            vk::DestroyBufferRequest { buffer },
        ),
        destroy_buffer_result(
            proto::frame::reply_bytes(
                vk_op::DESTROY_BUFFER,
                req_id,
                reply_seq,
                seq![],
            ),
        ) == Ok::<(), ClientError>(()),
{
    broadcast use crate::protocol::bytes::group_le_len;

    let req = vk::DestroyBufferRequest { buffer };
    super::law_request_passes(
        vk_op::DESTROY_BUFFER,
        req_id,
        seq,
        req.bytes(),
        proto::DEFAULT_MAX_FRAME_BODY,
    );
    req.law_whole();
    super::law_reply_accepted(vk_op::DESTROY_BUFFER, req_id, reply_seq, seq![]);
}

/// The request frame of [`vk_op::FREE_MEMORY`], with which to issue
/// `vkFreeMemory`, freeing `memory`.
pub fn free_memory_request(memory: Handle, req_id: u32, seq: u64) -> (frame: Vec<u8>)
    ensures
        frame@ == proto::frame::request_bytes(
            vk_op::FREE_MEMORY,
            req_id,
            seq,
            (vk::FreeMemoryRequest { memory }).bytes(),
        ),
{
    let mut body: Vec<u8> = Vec::new();
    (vk::FreeMemoryRequest { memory }).encode(&mut body);
    proto::frame::plain_frame(proto::FrameKind::Request, vk_op::FREE_MEMORY, req_id, seq, &body)
}

/// What [`vk_op::FREE_MEMORY`] yields on receiving `reply`.
pub open spec fn free_memory_result(reply: Seq<u8>) -> Result<(), ClientError> {
    match super::reply_body(reply, vk_op::FREE_MEMORY) {
        Err(e) => Err(e),
        Ok(_) => Ok(()),
    }
}

/// Read the reply to [`vk_op::FREE_MEMORY`]: validate its opcode and kind. The
/// reply body is an empty acknowledgement, so nothing is decoded.
pub fn free_memory_reply(reply: &[u8]) -> (r: Result<(), ClientError>)
    ensures
        r == free_memory_result(reply@),
{
    let _body: &[u8] = super::accept_reply(reply, vk_op::FREE_MEMORY)?;
    Ok(())
}

/// The request for [`vk_op::FREE_MEMORY`] reaches a server as it was made, and
/// what the server answers is what the caller gets.
pub proof fn law_free_memory_exchange(memory: Handle, req_id: u32, seq: u64, reply_seq: u64)
    ensures
        crate::server::session::screen(
            proto::frame::request_bytes(
                vk_op::FREE_MEMORY,
                req_id,
                seq,
                (vk::FreeMemoryRequest { memory }).bytes(),
            ),
            proto::DEFAULT_MAX_FRAME_BODY,
        ) matches Ok((h, body)) && h.opcode == vk_op::FREE_MEMORY && h.req_id == req_id
            && vk::FreeMemoryRequest::parse(body) == Ok::<
            vk::FreeMemoryRequest,
            proto::ProtocolError,
        >(
            vk::FreeMemoryRequest { memory },
        ),
        free_memory_result(
            proto::frame::reply_bytes(
                vk_op::FREE_MEMORY,
                req_id,
                reply_seq,
                seq![],
            ),
        ) == Ok::<(), ClientError>(()),
{
    broadcast use crate::protocol::bytes::group_le_len;

    let req = vk::FreeMemoryRequest { memory };
    super::law_request_passes(
        vk_op::FREE_MEMORY,
        req_id,
        seq,
        req.bytes(),
        proto::DEFAULT_MAX_FRAME_BODY,
    );
    req.law_whole();
    super::law_reply_accepted(vk_op::FREE_MEMORY, req_id, reply_seq, seq![]);
}

/// The request frame of [`vk_op::DESTROY_COMMAND_POOL`], with which to issue
/// `vkDestroyCommandPool`, destroying `pool`.
pub fn destroy_command_pool_request(pool: Handle, req_id: u32, seq: u64) -> (frame: Vec<u8>)
    ensures
        frame@ == proto::frame::request_bytes(
            vk_op::DESTROY_COMMAND_POOL,
            req_id,
            seq,
            (vk::DestroyCommandPoolRequest { pool }).bytes(),
        ),
{
    let mut body: Vec<u8> = Vec::new();
    (vk::DestroyCommandPoolRequest { pool }).encode(&mut body);
    proto::frame::plain_frame(
        proto::FrameKind::Request,
        vk_op::DESTROY_COMMAND_POOL,
        req_id,
        seq,
        &body,
    )
}

/// What [`vk_op::DESTROY_COMMAND_POOL`] yields on receiving `reply`.
pub open spec fn destroy_command_pool_result(reply: Seq<u8>) -> Result<(), ClientError> {
    match super::reply_body(reply, vk_op::DESTROY_COMMAND_POOL) {
        Err(e) => Err(e),
        Ok(_) => Ok(()),
    }
}

/// Read the reply to [`vk_op::DESTROY_COMMAND_POOL`]: validate its opcode and
/// kind. The reply body is an empty acknowledgement, so nothing is decoded.
pub fn destroy_command_pool_reply(reply: &[u8]) -> (r: Result<(), ClientError>)
    ensures
        r == destroy_command_pool_result(reply@),
{
    let _body: &[u8] = super::accept_reply(reply, vk_op::DESTROY_COMMAND_POOL)?;
    Ok(())
}

/// The request for [`vk_op::DESTROY_COMMAND_POOL`] reaches a server as it was
/// made, and what the server answers is what the caller gets.
pub proof fn law_destroy_command_pool_exchange(
    pool: Handle,
    req_id: u32,
    seq: u64,
    reply_seq: u64,
)
    ensures
        crate::server::session::screen(
            proto::frame::request_bytes(
                vk_op::DESTROY_COMMAND_POOL,
                req_id,
                seq,
                (vk::DestroyCommandPoolRequest { pool }).bytes(),
            ),
            proto::DEFAULT_MAX_FRAME_BODY,
        ) matches Ok((h, body)) && h.opcode == vk_op::DESTROY_COMMAND_POOL && h.req_id == req_id
            && vk::DestroyCommandPoolRequest::parse(body) == Ok::<
            vk::DestroyCommandPoolRequest,
            proto::ProtocolError,
        >(
            vk::DestroyCommandPoolRequest { pool },
        ),
        destroy_command_pool_result(
            proto::frame::reply_bytes(
                vk_op::DESTROY_COMMAND_POOL,
                req_id,
                reply_seq,
                seq![],
            ),
        ) == Ok::<(), ClientError>(()),
{
    broadcast use crate::protocol::bytes::group_le_len;

    let req = vk::DestroyCommandPoolRequest { pool };
    super::law_request_passes(
        vk_op::DESTROY_COMMAND_POOL,
        req_id,
        seq,
        req.bytes(),
        proto::DEFAULT_MAX_FRAME_BODY,
    );
    req.law_whole();
    super::law_reply_accepted(vk_op::DESTROY_COMMAND_POOL, req_id, reply_seq, seq![]);
}

/// The first handle that does not name an object of the given kind.
pub open spec fn first_other(devices: Seq<Handle>, kind: u8) -> Option<Handle>
    decreases devices.len(),
{
    if devices.len() == 0 {
        None
    } else if devices[0].spec_kind() != kind {
        Some(devices[0])
    } else {
        first_other(devices.skip(1), kind)
    }
}

/// Handles that must all name objects of the given kind.
pub open spec fn devices_of_kind(devices: Seq<Handle>, kind: u8) -> Result<
    Seq<Handle>,
    ClientError,
> {
    match first_other(devices, kind) {
        Some(h) => Err(ClientError::Protocol(proto::ProtocolError::BadKind(h.spec_kind() as u16))),
        None => Ok(devices),
    }
}

/// Check that every handle names an object of the given kind.
fn check_devices(devices: Vec<Handle>, kind: u8) -> (r: Result<Vec<Handle>, ClientError>)
    ensures
        match r {
            Ok(checked) => devices_of_kind(devices@, kind) == Ok::<Seq<Handle>, ClientError>(
                checked@,
            ),
            Err(e) => devices_of_kind(devices@, kind) == Err::<Seq<Handle>, ClientError>(e),
        },
{
    let mut i: usize = 0;
    assert(devices@.skip(0) =~= devices@);
    while i < devices.len()
        invariant
            i <= devices@.len(),
            first_other(devices@, kind) == first_other(devices@.skip(i as int), kind),
        decreases devices.len() - i,
    {
        assert(devices@.skip(i as int)[0] == devices@[i as int]);
        assert(devices@.skip(i as int).skip(1) =~= devices@.skip(i + 1));
        if devices[i].kind() != kind {
            return Err(
                ClientError::Protocol(proto::ProtocolError::BadKind(devices[i].kind() as u16)),
            );
        }
        i = i + 1;
    }
    Ok(devices)
}

/// Handles of one kind hold none of another.
proof fn lemma_no_other_kind(devices: Seq<Handle>, kind: u8)
    requires
        forall|i: int| 0 <= i < devices.len() ==> (#[trigger] devices[i]).spec_kind() == kind,
    ensures
        first_other(devices, kind) is None,
    decreases devices.len(),
{
    if devices.len() > 0 {
        assert(devices[0].spec_kind() == kind);
        assert forall|i: int| 0 <= i < devices.len() - 1 implies (#[trigger] devices.skip(
            1,
        )[i]).spec_kind() == kind by {
            assert(devices.skip(1)[i] == devices[i + 1]);
        }
        lemma_no_other_kind(devices.skip(1), kind);
    }
}

/// The reply to [`vk_op::CREATE_INSTANCE`] is read by its opcode, its kind and its
/// body alone. A response under that opcode yields the handle it carries if that is
/// of the right kind, and is refused by the kind if not; where the body is too
/// short for a handle it is refused as an unexpected end. Any other frame is
/// refused as unexpected, and what is no frame for the reason that it is none.
pub proof fn law_create_instance_reply(
    h: proto::FrameHeader,
    answer: Handle,
    rest: Seq<u8>,
    body: Seq<u8>,
    garbled: Seq<u8>,
)
    ensures
        h.opcode == vk_op::CREATE_INSTANCE && h.kind == proto::FrameKind::Response ==> {
            &&& create_instance_result(
                proto::frame::frame_bytes(
                    h,
                    (vk::CreateInstanceResponse { instance: answer }).bytes() + rest,
                ),
            ) == if answer.spec_kind() == KIND_INSTANCE {
                Ok::<Handle, ClientError>(answer)
            } else {
                Err::<Handle, ClientError>(
                    ClientError::Protocol(
                        proto::ProtocolError::BadKind(answer.spec_kind() as u16),
                    ),
                )
            }
            &&& body.len() < 8
                ==> create_instance_result(proto::frame::frame_bytes(h, body)) == Err::<
                Handle,
                ClientError,
            >(ClientError::Protocol(proto::ProtocolError::UnexpectedEof))
        },
        h.opcode != vk_op::CREATE_INSTANCE || h.kind != proto::FrameKind::Response
            ==> create_instance_result(
            proto::frame::frame_bytes(h, body),
        ) == Err::<Handle, ClientError>(
            ClientError::UnexpectedReply { opcode: h.opcode, kind: h.kind },
        ),
        proto::frame::parse_frame(garbled) matches Err(e)
            ==> create_instance_result(garbled) == Err::<
            Handle,
            ClientError,
        >(ClientError::Protocol(e)),
{
    let resp = vk::CreateInstanceResponse { instance: answer };
    resp.law_round_trip(rest);
    proto::frame::law_frame_round_trip(h, resp.bytes() + rest);
    proto::frame::law_frame_round_trip(h, body);
}

/// The reply to [`vk_op::CREATE_DEVICE`] is read by its opcode, its kind and its
/// body alone. A response under that opcode yields the handle it carries if that is
/// of the right kind, and is refused by the kind if not; where the body is too
/// short for a handle it is refused as an unexpected end. Any other frame is
/// refused as unexpected, and what is no frame for the reason that it is none.
pub proof fn law_create_device_reply(
    h: proto::FrameHeader,
    answer: Handle,
    rest: Seq<u8>,
    body: Seq<u8>,
    garbled: Seq<u8>,
)
    ensures
        h.opcode == vk_op::CREATE_DEVICE && h.kind == proto::FrameKind::Response ==> {
            &&& create_device_result(
                proto::frame::frame_bytes(
                    h,
                    (vk::CreateDeviceResponse { device: answer }).bytes() + rest,
                ),
            ) == if answer.spec_kind() == KIND_DEVICE {
                Ok::<Handle, ClientError>(answer)
            } else {
                Err::<Handle, ClientError>(
                    ClientError::Protocol(
                        proto::ProtocolError::BadKind(answer.spec_kind() as u16),
                    ),
                )
            }
            &&& body.len() < 8
                ==> create_device_result(proto::frame::frame_bytes(h, body)) == Err::<
                Handle,
                ClientError,
            >(ClientError::Protocol(proto::ProtocolError::UnexpectedEof))
        },
        h.opcode != vk_op::CREATE_DEVICE || h.kind != proto::FrameKind::Response
            ==> create_device_result(
            proto::frame::frame_bytes(h, body),
        ) == Err::<Handle, ClientError>(
            ClientError::UnexpectedReply { opcode: h.opcode, kind: h.kind },
        ),
        proto::frame::parse_frame(garbled) matches Err(e)
            ==> create_device_result(garbled) == Err::<
            Handle,
            ClientError,
        >(ClientError::Protocol(e)),
{
    let resp = vk::CreateDeviceResponse { device: answer };
    resp.law_round_trip(rest);
    proto::frame::law_frame_round_trip(h, resp.bytes() + rest);
    proto::frame::law_frame_round_trip(h, body);
}

/// The reply to [`vk_op::GET_DEVICE_QUEUE`] is read by its opcode, its kind and its
/// body alone. A response under that opcode yields the handle it carries if that is
/// of the right kind, and is refused by the kind if not; where the body is too
/// short for a handle it is refused as an unexpected end. Any other frame is
/// refused as unexpected, and what is no frame for the reason that it is none.
pub proof fn law_get_device_queue_reply(
    h: proto::FrameHeader,
    answer: Handle,
    rest: Seq<u8>,
    body: Seq<u8>,
    garbled: Seq<u8>,
)
    ensures
        h.opcode == vk_op::GET_DEVICE_QUEUE && h.kind == proto::FrameKind::Response ==> {
            &&& get_device_queue_result(
                proto::frame::frame_bytes(
                    h,
                    (vk::GetDeviceQueueResponse { queue: answer }).bytes() + rest,
                ),
            ) == if answer.spec_kind() == KIND_QUEUE {
                Ok::<Handle, ClientError>(answer)
            } else {
                Err::<Handle, ClientError>(
                    ClientError::Protocol(
                        proto::ProtocolError::BadKind(answer.spec_kind() as u16),
                    ),
                )
            }
            &&& body.len() < 8
                ==> get_device_queue_result(proto::frame::frame_bytes(h, body)) == Err::<
                Handle,
                ClientError,
            >(ClientError::Protocol(proto::ProtocolError::UnexpectedEof))
        },
        h.opcode != vk_op::GET_DEVICE_QUEUE || h.kind != proto::FrameKind::Response
            ==> get_device_queue_result(
            proto::frame::frame_bytes(h, body),
        ) == Err::<Handle, ClientError>(
            ClientError::UnexpectedReply { opcode: h.opcode, kind: h.kind },
        ),
        proto::frame::parse_frame(garbled) matches Err(e)
            ==> get_device_queue_result(garbled) == Err::<
            Handle,
            ClientError,
        >(ClientError::Protocol(e)),
{
    let resp = vk::GetDeviceQueueResponse { queue: answer };
    resp.law_round_trip(rest);
    proto::frame::law_frame_round_trip(h, resp.bytes() + rest);
    proto::frame::law_frame_round_trip(h, body);
}

/// The reply to [`vk_op::ALLOCATE_MEMORY`] is read by its opcode, its kind and its
/// body alone. A response under that opcode yields the handle it carries if that is
/// of the right kind, and is refused by the kind if not; where the body is too
/// short for a handle it is refused as an unexpected end. Any other frame is
/// refused as unexpected, and what is no frame for the reason that it is none.
pub proof fn law_allocate_memory_reply(
    h: proto::FrameHeader,
    answer: Handle,
    rest: Seq<u8>,
    body: Seq<u8>,
    garbled: Seq<u8>,
)
    ensures
        h.opcode == vk_op::ALLOCATE_MEMORY && h.kind == proto::FrameKind::Response ==> {
            &&& allocate_memory_result(
                proto::frame::frame_bytes(
                    h,
                    (vk::AllocateMemoryResponse { memory: answer }).bytes() + rest,
                ),
            ) == if answer.spec_kind() == KIND_DEVICE_MEMORY {
                Ok::<Handle, ClientError>(answer)
            } else {
                Err::<Handle, ClientError>(
                    ClientError::Protocol(
                        proto::ProtocolError::BadKind(answer.spec_kind() as u16),
                    ),
                )
            }
            &&& body.len() < 8
                ==> allocate_memory_result(proto::frame::frame_bytes(h, body)) == Err::<
                Handle,
                ClientError,
            >(ClientError::Protocol(proto::ProtocolError::UnexpectedEof))
        },
        h.opcode != vk_op::ALLOCATE_MEMORY || h.kind != proto::FrameKind::Response
            ==> allocate_memory_result(
            proto::frame::frame_bytes(h, body),
        ) == Err::<Handle, ClientError>(
            ClientError::UnexpectedReply { opcode: h.opcode, kind: h.kind },
        ),
        proto::frame::parse_frame(garbled) matches Err(e)
            ==> allocate_memory_result(garbled) == Err::<
            Handle,
            ClientError,
        >(ClientError::Protocol(e)),
{
    let resp = vk::AllocateMemoryResponse { memory: answer };
    resp.law_round_trip(rest);
    proto::frame::law_frame_round_trip(h, resp.bytes() + rest);
    proto::frame::law_frame_round_trip(h, body);
}

/// The reply to [`vk_op::CREATE_BUFFER`] is read by its opcode, its kind and its
/// body alone. A response under that opcode yields the handle it carries if that is
/// of the right kind, and is refused by the kind if not; where the body is too
/// short for a handle it is refused as an unexpected end. Any other frame is
/// refused as unexpected, and what is no frame for the reason that it is none.
pub proof fn law_create_buffer_reply(
    h: proto::FrameHeader,
    answer: Handle,
    rest: Seq<u8>,
    body: Seq<u8>,
    garbled: Seq<u8>,
)
    ensures
        h.opcode == vk_op::CREATE_BUFFER && h.kind == proto::FrameKind::Response ==> {
            &&& create_buffer_result(
                proto::frame::frame_bytes(
                    h,
                    (vk::CreateBufferResponse { buffer: answer }).bytes() + rest,
                ),
            ) == if answer.spec_kind() == KIND_BUFFER {
                Ok::<Handle, ClientError>(answer)
            } else {
                Err::<Handle, ClientError>(
                    ClientError::Protocol(
                        proto::ProtocolError::BadKind(answer.spec_kind() as u16),
                    ),
                )
            }
            &&& body.len() < 8
                ==> create_buffer_result(proto::frame::frame_bytes(h, body)) == Err::<
                Handle,
                ClientError,
            >(ClientError::Protocol(proto::ProtocolError::UnexpectedEof))
        },
        h.opcode != vk_op::CREATE_BUFFER || h.kind != proto::FrameKind::Response
            ==> create_buffer_result(
            proto::frame::frame_bytes(h, body),
        ) == Err::<Handle, ClientError>(
            ClientError::UnexpectedReply { opcode: h.opcode, kind: h.kind },
        ),
        proto::frame::parse_frame(garbled) matches Err(e)
            ==> create_buffer_result(garbled) == Err::<
            Handle,
            ClientError,
        >(ClientError::Protocol(e)),
{
    let resp = vk::CreateBufferResponse { buffer: answer };
    resp.law_round_trip(rest);
    proto::frame::law_frame_round_trip(h, resp.bytes() + rest);
    proto::frame::law_frame_round_trip(h, body);
}

/// The reply to [`vk_op::BIND_BUFFER_MEMORY`] is read by its opcode and its kind
/// alone: a response under that opcode is an acknowledgement. Any other frame is
/// refused as unexpected, and what is no frame for the reason that it is none.
pub proof fn law_bind_buffer_memory_reply(
    h: proto::FrameHeader,
    body: Seq<u8>,
    garbled: Seq<u8>,
)
    ensures
        h.opcode == vk_op::BIND_BUFFER_MEMORY && h.kind == proto::FrameKind::Response ==> {
            bind_buffer_memory_result(proto::frame::frame_bytes(h, body))
                == Ok::<(), ClientError>(())
        },
        h.opcode != vk_op::BIND_BUFFER_MEMORY || h.kind != proto::FrameKind::Response
            ==> bind_buffer_memory_result(
            proto::frame::frame_bytes(h, body),
        ) == Err::<(), ClientError>(
            ClientError::UnexpectedReply { opcode: h.opcode, kind: h.kind },
        ),
        proto::frame::parse_frame(garbled) matches Err(e)
            ==> bind_buffer_memory_result(garbled) == Err::<
            (),
            ClientError,
        >(ClientError::Protocol(e)),
{
    proto::frame::law_frame_round_trip(h, body);
}

/// The reply to [`vk_op::CREATE_COMMAND_POOL`] is read by its opcode, its kind and
/// its body alone. A response under that opcode yields the handle it carries if
/// that is of the right kind, and is refused by the kind if not; where the body is
/// too short for a handle it is refused as an unexpected end. Any other frame is
/// refused as unexpected, and what is no frame for the reason that it is none.
pub proof fn law_create_command_pool_reply(
    h: proto::FrameHeader,
    answer: Handle,
    rest: Seq<u8>,
    body: Seq<u8>,
    garbled: Seq<u8>,
)
    ensures
        h.opcode == vk_op::CREATE_COMMAND_POOL && h.kind == proto::FrameKind::Response ==> {
            &&& create_command_pool_result(
                proto::frame::frame_bytes(
                    h,
                    (vk::CreateCommandPoolResponse { pool: answer }).bytes() + rest,
                ),
            ) == if answer.spec_kind() == KIND_COMMAND_POOL {
                Ok::<Handle, ClientError>(answer)
            } else {
                Err::<Handle, ClientError>(
                    ClientError::Protocol(
                        proto::ProtocolError::BadKind(answer.spec_kind() as u16),
                    ),
                )
            }
            &&& body.len() < 8
                ==> create_command_pool_result(proto::frame::frame_bytes(h, body)) == Err::<
                Handle,
                ClientError,
            >(ClientError::Protocol(proto::ProtocolError::UnexpectedEof))
        },
        h.opcode != vk_op::CREATE_COMMAND_POOL || h.kind != proto::FrameKind::Response
            ==> create_command_pool_result(
            proto::frame::frame_bytes(h, body),
        ) == Err::<Handle, ClientError>(
            ClientError::UnexpectedReply { opcode: h.opcode, kind: h.kind },
        ),
        proto::frame::parse_frame(garbled) matches Err(e)
            ==> create_command_pool_result(garbled) == Err::<
            Handle,
            ClientError,
        >(ClientError::Protocol(e)),
{
    let resp = vk::CreateCommandPoolResponse { pool: answer };
    resp.law_round_trip(rest);
    proto::frame::law_frame_round_trip(h, resp.bytes() + rest);
    proto::frame::law_frame_round_trip(h, body);
}

/// The reply to [`vk_op::ALLOCATE_COMMAND_BUFFER`] is read by its opcode, its kind
/// and its body alone. A response under that opcode yields the handle it carries if
/// that is of the right kind, and is refused by the kind if not; where the body is
/// too short for a handle it is refused as an unexpected end. Any other frame is
/// refused as unexpected, and what is no frame for the reason that it is none.
pub proof fn law_allocate_command_buffer_reply(
    h: proto::FrameHeader,
    answer: Handle,
    rest: Seq<u8>,
    body: Seq<u8>,
    garbled: Seq<u8>,
)
    ensures
        h.opcode == vk_op::ALLOCATE_COMMAND_BUFFER && h.kind == proto::FrameKind::Response ==> {
            &&& allocate_command_buffer_result(
                proto::frame::frame_bytes(
                    h,
                    (vk::AllocateCommandBufferResponse { command_buffer: answer }).bytes() + rest,
                ),
            ) == if answer.spec_kind() == KIND_COMMAND_BUFFER {
                Ok::<Handle, ClientError>(answer)
            } else {
                Err::<Handle, ClientError>(
                    ClientError::Protocol(
                        proto::ProtocolError::BadKind(answer.spec_kind() as u16),
                    ),
                )
            }
            &&& body.len() < 8
                ==> allocate_command_buffer_result(proto::frame::frame_bytes(h, body)) == Err::<
                Handle,
                ClientError,
            >(ClientError::Protocol(proto::ProtocolError::UnexpectedEof))
        },
        h.opcode != vk_op::ALLOCATE_COMMAND_BUFFER || h.kind != proto::FrameKind::Response
            ==> allocate_command_buffer_result(
            proto::frame::frame_bytes(h, body),
        ) == Err::<Handle, ClientError>(
            ClientError::UnexpectedReply { opcode: h.opcode, kind: h.kind },
        ),
        proto::frame::parse_frame(garbled) matches Err(e)
            ==> allocate_command_buffer_result(garbled) == Err::<
            Handle,
            ClientError,
        >(ClientError::Protocol(e)),
{
    let resp = vk::AllocateCommandBufferResponse { command_buffer: answer };
    resp.law_round_trip(rest);
    proto::frame::law_frame_round_trip(h, resp.bytes() + rest);
    proto::frame::law_frame_round_trip(h, body);
}

/// The reply to [`vk_op::QUEUE_SUBMIT`] is read by its opcode and its kind alone: a
/// response under that opcode is an acknowledgement. Any other frame is refused as
/// unexpected, and what is no frame for the reason that it is none.
pub proof fn law_queue_submit_reply(
    h: proto::FrameHeader,
    body: Seq<u8>,
    garbled: Seq<u8>,
)
    ensures
        h.opcode == vk_op::QUEUE_SUBMIT && h.kind == proto::FrameKind::Response ==> {
            queue_submit_result(proto::frame::frame_bytes(h, body)) == Ok::<(), ClientError>(())
        },
        h.opcode != vk_op::QUEUE_SUBMIT || h.kind != proto::FrameKind::Response
            ==> queue_submit_result(
            proto::frame::frame_bytes(h, body),
        ) == Err::<(), ClientError>(
            ClientError::UnexpectedReply { opcode: h.opcode, kind: h.kind },
        ),
        proto::frame::parse_frame(garbled) matches Err(e) ==> queue_submit_result(garbled) == Err::<
            (),
            ClientError,
        >(ClientError::Protocol(e)),
{
    proto::frame::law_frame_round_trip(h, body);
}

/// The reply to [`vk_op::CMD_COPY_BUFFER`] is read by its opcode and its kind
/// alone: a response under that opcode is an acknowledgement. Any other frame is
/// refused as unexpected, and what is no frame for the reason that it is none.
pub proof fn law_cmd_copy_buffer_reply(
    h: proto::FrameHeader,
    body: Seq<u8>,
    garbled: Seq<u8>,
)
    ensures
        h.opcode == vk_op::CMD_COPY_BUFFER && h.kind == proto::FrameKind::Response ==> {
            cmd_copy_buffer_result(proto::frame::frame_bytes(h, body)) == Ok::<(), ClientError>(())
        },
        h.opcode != vk_op::CMD_COPY_BUFFER || h.kind != proto::FrameKind::Response
            ==> cmd_copy_buffer_result(
            proto::frame::frame_bytes(h, body),
        ) == Err::<(), ClientError>(
            ClientError::UnexpectedReply { opcode: h.opcode, kind: h.kind },
        ),
        proto::frame::parse_frame(garbled) matches Err(e)
            ==> cmd_copy_buffer_result(garbled) == Err::<
            (),
            ClientError,
        >(ClientError::Protocol(e)),
{
    proto::frame::law_frame_round_trip(h, body);
}

/// The reply to [`vk_op::CMD_DRAW`] is read by its opcode and its kind alone: a
/// response under that opcode is an acknowledgement. Any other frame is refused as
/// unexpected, and what is no frame for the reason that it is none.
pub proof fn law_cmd_draw_reply(
    h: proto::FrameHeader,
    body: Seq<u8>,
    garbled: Seq<u8>,
)
    ensures
        h.opcode == vk_op::CMD_DRAW && h.kind == proto::FrameKind::Response ==> {
            cmd_draw_result(proto::frame::frame_bytes(h, body)) == Ok::<(), ClientError>(())
        },
        h.opcode != vk_op::CMD_DRAW || h.kind != proto::FrameKind::Response ==> cmd_draw_result(
            proto::frame::frame_bytes(h, body),
        ) == Err::<(), ClientError>(
            ClientError::UnexpectedReply { opcode: h.opcode, kind: h.kind },
        ),
        proto::frame::parse_frame(garbled) matches Err(e) ==> cmd_draw_result(garbled) == Err::<
            (),
            ClientError,
        >(ClientError::Protocol(e)),
{
    proto::frame::law_frame_round_trip(h, body);
}

/// The reply to [`vk_op::DESTROY_BUFFER`] is read by its opcode and its kind alone:
/// a response under that opcode is an acknowledgement. Any other frame is refused
/// as unexpected, and what is no frame for the reason that it is none.
pub proof fn law_destroy_buffer_reply(
    h: proto::FrameHeader,
    body: Seq<u8>,
    garbled: Seq<u8>,
)
    ensures
        h.opcode == vk_op::DESTROY_BUFFER && h.kind == proto::FrameKind::Response ==> {
            destroy_buffer_result(proto::frame::frame_bytes(h, body)) == Ok::<(), ClientError>(())
        },
        h.opcode != vk_op::DESTROY_BUFFER || h.kind != proto::FrameKind::Response
            ==> destroy_buffer_result(
            proto::frame::frame_bytes(h, body),
        ) == Err::<(), ClientError>(
            ClientError::UnexpectedReply { opcode: h.opcode, kind: h.kind },
        ),
        proto::frame::parse_frame(garbled) matches Err(e)
            ==> destroy_buffer_result(garbled) == Err::<
            (),
            ClientError,
        >(ClientError::Protocol(e)),
{
    proto::frame::law_frame_round_trip(h, body);
}

/// The reply to [`vk_op::FREE_MEMORY`] is read by its opcode and its kind alone: a
/// response under that opcode is an acknowledgement. Any other frame is refused as
/// unexpected, and what is no frame for the reason that it is none.
pub proof fn law_free_memory_reply(
    h: proto::FrameHeader,
    body: Seq<u8>,
    garbled: Seq<u8>,
)
    ensures
        h.opcode == vk_op::FREE_MEMORY && h.kind == proto::FrameKind::Response ==> {
            free_memory_result(proto::frame::frame_bytes(h, body)) == Ok::<(), ClientError>(())
        },
        h.opcode != vk_op::FREE_MEMORY || h.kind != proto::FrameKind::Response
            ==> free_memory_result(
            proto::frame::frame_bytes(h, body),
        ) == Err::<(), ClientError>(
            ClientError::UnexpectedReply { opcode: h.opcode, kind: h.kind },
        ),
        proto::frame::parse_frame(garbled) matches Err(e) ==> free_memory_result(garbled) == Err::<
            (),
            ClientError,
        >(ClientError::Protocol(e)),
{
    proto::frame::law_frame_round_trip(h, body);
}

/// The reply to [`vk_op::DESTROY_COMMAND_POOL`] is read by its opcode and its kind
/// alone: a response under that opcode is an acknowledgement. Any other frame is
/// refused as unexpected, and what is no frame for the reason that it is none.
pub proof fn law_destroy_command_pool_reply(
    h: proto::FrameHeader,
    body: Seq<u8>,
    garbled: Seq<u8>,
)
    ensures
        h.opcode == vk_op::DESTROY_COMMAND_POOL && h.kind == proto::FrameKind::Response ==> {
            destroy_command_pool_result(proto::frame::frame_bytes(h, body))
                == Ok::<(), ClientError>(())
        },
        h.opcode != vk_op::DESTROY_COMMAND_POOL || h.kind != proto::FrameKind::Response
            ==> destroy_command_pool_result(
            proto::frame::frame_bytes(h, body),
        ) == Err::<(), ClientError>(
            ClientError::UnexpectedReply { opcode: h.opcode, kind: h.kind },
        ),
        proto::frame::parse_frame(garbled) matches Err(e)
            ==> destroy_command_pool_result(garbled) == Err::<
            (),
            ClientError,
        >(ClientError::Protocol(e)),
{
    proto::frame::law_frame_round_trip(h, body);
}

/// The reply to [`vk_op::ENUMERATE_PHYSICAL_DEVICES`] is read by its opcode, its
/// kind and its body alone. A response under that opcode yields the handles it
/// lists, in order, if all of them name physical devices; if not, it is refused by
/// the kind of the first one that does not. Any other frame is refused as
/// unexpected, and what is no frame for the reason that it is none.
pub proof fn law_enumerate_physical_devices_reply(
    h: proto::FrameHeader,
    answer: Seq<Handle>,
    i: int,
    rest: Seq<u8>,
    body: Seq<u8>,
    garbled: Seq<u8>,
)
    requires
        answer.len() < 0x1_0000_0000,
    ensures
        h.opcode == vk_op::ENUMERATE_PHYSICAL_DEVICES && h.kind == proto::FrameKind::Response ==> {
            let result = enumerate_physical_devices_result(
                proto::frame::frame_bytes(h, vk::device_list_bytes(answer) + rest),
            );
            &&& (forall|k: int|
                0 <= k < answer.len() ==> (#[trigger] answer[k]).spec_kind()
                    == KIND_PHYSICAL_DEVICE) ==> result == Ok::<Seq<Handle>, ClientError>(answer)
            &&& (0 <= i < answer.len() && answer[i].spec_kind() != KIND_PHYSICAL_DEVICE && forall|
                k: int,
            |
                0 <= k < i ==> (#[trigger] answer[k]).spec_kind() == KIND_PHYSICAL_DEVICE)
                ==> result == Err::<Seq<Handle>, ClientError>(
                ClientError::Protocol(
                    proto::ProtocolError::BadKind(answer[i].spec_kind() as u16),
                ),
            )
            &&& body.len() < 4 ==> enumerate_physical_devices_result(
                proto::frame::frame_bytes(h, body),
            ) == Err::<Seq<Handle>, ClientError>(
                ClientError::Protocol(proto::ProtocolError::UnexpectedEof),
            )
        },
        h.opcode != vk_op::ENUMERATE_PHYSICAL_DEVICES || h.kind != proto::FrameKind::Response
            ==> enumerate_physical_devices_result(proto::frame::frame_bytes(h, body)) == Err::<
            Seq<Handle>,
            ClientError,
        >(ClientError::UnexpectedReply { opcode: h.opcode, kind: h.kind }),
        proto::frame::parse_frame(garbled) matches Err(e) ==> enumerate_physical_devices_result(
            garbled,
        ) == Err::<Seq<Handle>, ClientError>(ClientError::Protocol(e)),
{
    vk::law_devices_round_trip(answer, rest);
    proto::frame::law_frame_round_trip(h, vk::device_list_bytes(answer) + rest);
    proto::frame::law_frame_round_trip(h, body);
    if forall|k: int|
        0 <= k < answer.len() ==> (#[trigger] answer[k]).spec_kind() == KIND_PHYSICAL_DEVICE {
        lemma_no_other_kind(answer, KIND_PHYSICAL_DEVICE);
    }
    if 0 <= i < answer.len() && answer[i].spec_kind() != KIND_PHYSICAL_DEVICE && forall|k: int|
        0 <= k < i ==> (#[trigger] answer[k]).spec_kind() == KIND_PHYSICAL_DEVICE {
        lemma_first_other_kind(answer, KIND_PHYSICAL_DEVICE, i);
    }
}

/// The first handle of another kind is the one that none comes before.
proof fn lemma_first_other_kind(devices: Seq<Handle>, kind: u8, i: int)
    requires
        0 <= i < devices.len(),
        devices[i].spec_kind() != kind,
        forall|k: int| 0 <= k < i ==> (#[trigger] devices[k]).spec_kind() == kind,
    ensures
        first_other(devices, kind) == Some(devices[i]),
    decreases devices.len(),
{
    if i > 0 {
        assert(devices[0].spec_kind() == kind);
        assert forall|k: int| 0 <= k < i - 1 implies (#[trigger] devices.skip(1)[k]).spec_kind()
            == kind by {
            assert(devices.skip(1)[k] == devices[k + 1]);
        }
        lemma_first_other_kind(devices.skip(1), kind, i - 1);
    }
}

/// The request frame of [`vk_op::CREATE_INSTANCE`] carries what it was asked for: a
/// request under that opcode, the given request id and sequence number, and a body
/// of nothing but the arguments, in order.
pub proof fn law_create_instance_request(
    app_api_version: u32,
    req_id: u32,
    seq: u64,
    frame: Vec<u8>,
)
    requires
        call_ensures(create_instance_request, (app_api_version, req_id, seq), frame),
    ensures
        proto::frame::parse_frame(frame@) matches Ok((h, body)) && {
            &&& h.kind == proto::FrameKind::Request
            &&& h.opcode == 0x0100_0001
            &&& h.req_id == req_id
            &&& h.seq == seq
            &&& h.body_len == 4
            &&& body.len() == 4
            &&& proto::bytes::u32_at(body, 0) == app_api_version
        },
{
    let req = vk::CreateInstanceRequest { app_api_version };
    vk::law_create_instance_request_layout(req);
    proto::frame::law_made_frames(vk_op::CREATE_INSTANCE, req_id, seq, req.bytes());
}

/// The request frame of [`vk_op::ENUMERATE_PHYSICAL_DEVICES`] carries what it was
/// asked for: a request under that opcode, the given request id and sequence
/// number, and a body of nothing but the arguments, in order.
pub proof fn law_enumerate_physical_devices_request(
    instance: Handle,
    req_id: u32,
    seq: u64,
    frame: Vec<u8>,
)
    requires
        call_ensures(enumerate_physical_devices_request, (instance, req_id, seq), frame),
    ensures
        proto::frame::parse_frame(frame@) matches Ok((h, body)) && {
            &&& h.kind == proto::FrameKind::Request
            &&& h.opcode == 0x0100_0003
            &&& h.req_id == req_id
            &&& h.seq == seq
            &&& h.body_len == 8
            &&& body.len() == 8
            &&& proto::bytes::u64_at(body, 0) == instance@
        },
{
    let req = vk::EnumeratePhysicalDevicesRequest { instance };
    vk::law_enumerate_physical_devices_request_layout(req);
    proto::frame::law_made_frames(vk_op::ENUMERATE_PHYSICAL_DEVICES, req_id, seq, req.bytes());
}

/// The request frame of [`vk_op::CREATE_DEVICE`] carries what it was asked for: a
/// request under that opcode, the given request id and sequence number, and a body
/// of nothing but the arguments, in order.
pub proof fn law_create_device_request(
    physical_device: Handle,
    req_id: u32,
    seq: u64,
    frame: Vec<u8>,
)
    requires
        call_ensures(create_device_request, (physical_device, req_id, seq), frame),
    ensures
        proto::frame::parse_frame(frame@) matches Ok((h, body)) && {
            &&& h.kind == proto::FrameKind::Request
            &&& h.opcode == 0x0100_0005
            &&& h.req_id == req_id
            &&& h.seq == seq
            &&& h.body_len == 8
            &&& body.len() == 8
            &&& proto::bytes::u64_at(body, 0) == physical_device@
        },
{
    let req = vk::CreateDeviceRequest { physical_device };
    vk::law_create_device_request_layout(req);
    proto::frame::law_made_frames(vk_op::CREATE_DEVICE, req_id, seq, req.bytes());
}

/// The request frame of [`vk_op::GET_DEVICE_QUEUE`] carries what it was asked for:
/// a request under that opcode, the given request id and sequence number, and a
/// body of nothing but the arguments, in order.
pub proof fn law_get_device_queue_request(
    device: Handle,
    queue_family_index: u32,
    queue_index: u32,
    req_id: u32,
    seq: u64,
    frame: Vec<u8>,
)
    requires
        call_ensures(
            get_device_queue_request,
            (device, queue_family_index, queue_index, req_id, seq),
            frame,
        ),
    ensures
        proto::frame::parse_frame(frame@) matches Ok((h, body)) && {
            &&& h.kind == proto::FrameKind::Request
            &&& h.opcode == 0x0100_0007
            &&& h.req_id == req_id
            &&& h.seq == seq
            &&& h.body_len == 16
            &&& body.len() == 16
            &&& proto::bytes::u64_at(body, 0) == device@
            &&& proto::bytes::u32_at(body, 8) == queue_family_index
            &&& proto::bytes::u32_at(body, 12) == queue_index
        },
{
    let req = vk::GetDeviceQueueRequest { device, queue_family_index, queue_index };
    vk::law_get_device_queue_request_layout(req);
    proto::frame::law_made_frames(vk_op::GET_DEVICE_QUEUE, req_id, seq, req.bytes());
}

/// The request frame of [`vk_op::ALLOCATE_MEMORY`] carries what it was asked for: a
/// request under that opcode, the given request id and sequence number, and a body
/// of nothing but the arguments, in order.
pub proof fn law_allocate_memory_request(
    device: Handle,
    size: u64,
    req_id: u32,
    seq: u64,
    frame: Vec<u8>,
)
    requires
        call_ensures(allocate_memory_request, (device, size, req_id, seq), frame),
    ensures
        proto::frame::parse_frame(frame@) matches Ok((h, body)) && {
            &&& h.kind == proto::FrameKind::Request
            &&& h.opcode == 0x0100_0010
            &&& h.req_id == req_id
            &&& h.seq == seq
            &&& h.body_len == 16
            &&& body.len() == 16
            &&& proto::bytes::u64_at(body, 0) == device@
            &&& proto::bytes::u64_at(body, 8) == size
        },
{
    let req = vk::AllocateMemoryRequest { device, size };
    vk::law_allocate_memory_request_layout(req);
    proto::frame::law_made_frames(vk_op::ALLOCATE_MEMORY, req_id, seq, req.bytes());
}

/// The request frame of [`vk_op::CREATE_BUFFER`] carries what it was asked for: a
/// request under that opcode, the given request id and sequence number, and a body
/// of nothing but the arguments, in order.
pub proof fn law_create_buffer_request(
    device: Handle,
    size: u64,
    usage: u32,
    req_id: u32,
    seq: u64,
    frame: Vec<u8>,
)
    requires
        call_ensures(create_buffer_request, (device, size, usage, req_id, seq), frame),
    ensures
        proto::frame::parse_frame(frame@) matches Ok((h, body)) && {
            &&& h.kind == proto::FrameKind::Request
            &&& h.opcode == 0x0100_0011
            &&& h.req_id == req_id
            &&& h.seq == seq
            &&& h.body_len == 20
            &&& body.len() == 20
            &&& proto::bytes::u64_at(body, 0) == device@
            &&& proto::bytes::u64_at(body, 8) == size
            &&& proto::bytes::u32_at(body, 16) == usage
        },
{
    let req = vk::CreateBufferRequest { device, size, usage };
    vk::law_create_buffer_request_layout(req);
    proto::frame::law_made_frames(vk_op::CREATE_BUFFER, req_id, seq, req.bytes());
}

/// The request frame of [`vk_op::BIND_BUFFER_MEMORY`] carries what it was asked
/// for: a request under that opcode, the given request id and sequence number, and
/// a body of nothing but the arguments, in order.
pub proof fn law_bind_buffer_memory_request(
    buffer: Handle,
    memory: Handle,
    offset: u64,
    req_id: u32,
    seq: u64,
    frame: Vec<u8>,
)
    requires
        call_ensures(bind_buffer_memory_request, (buffer, memory, offset, req_id, seq), frame),
    ensures
        proto::frame::parse_frame(frame@) matches Ok((h, body)) && {
            &&& h.kind == proto::FrameKind::Request
            &&& h.opcode == 0x0100_0012
            &&& h.req_id == req_id
            &&& h.seq == seq
            &&& h.body_len == 24
            &&& body.len() == 24
            &&& proto::bytes::u64_at(body, 0) == buffer@
            &&& proto::bytes::u64_at(body, 8) == memory@
            &&& proto::bytes::u64_at(body, 16) == offset
        },
{
    let req = vk::BindBufferMemoryRequest { buffer, memory, offset };
    vk::law_bind_buffer_memory_request_layout(req);
    proto::frame::law_made_frames(vk_op::BIND_BUFFER_MEMORY, req_id, seq, req.bytes());
}

/// The request frame of [`vk_op::CREATE_COMMAND_POOL`] carries what it was asked
/// for: a request under that opcode, the given request id and sequence number, and
/// a body of nothing but the arguments, in order.
pub proof fn law_create_command_pool_request(
    device: Handle,
    queue_family_index: u32,
    req_id: u32,
    seq: u64,
    frame: Vec<u8>,
)
    requires
        call_ensures(create_command_pool_request, (device, queue_family_index, req_id, seq), frame),
    ensures
        proto::frame::parse_frame(frame@) matches Ok((h, body)) && {
            &&& h.kind == proto::FrameKind::Request
            &&& h.opcode == 0x0100_0020
            &&& h.req_id == req_id
            &&& h.seq == seq
            &&& h.body_len == 12
            &&& body.len() == 12
            &&& proto::bytes::u64_at(body, 0) == device@
            &&& proto::bytes::u32_at(body, 8) == queue_family_index
        },
{
    let req = vk::CreateCommandPoolRequest { device, queue_family_index };
    vk::law_create_command_pool_request_layout(req);
    proto::frame::law_made_frames(vk_op::CREATE_COMMAND_POOL, req_id, seq, req.bytes());
}

/// The request frame of [`vk_op::ALLOCATE_COMMAND_BUFFER`] carries what it was
/// asked for: a request under that opcode, the given request id and sequence
/// number, and a body of nothing but the arguments, in order.
pub proof fn law_allocate_command_buffer_request(
    pool: Handle,
    req_id: u32,
    seq: u64,
    frame: Vec<u8>,
)
    requires
        call_ensures(allocate_command_buffer_request, (pool, req_id, seq), frame),
    ensures
        proto::frame::parse_frame(frame@) matches Ok((h, body)) && {
            &&& h.kind == proto::FrameKind::Request
            &&& h.opcode == 0x0100_0021
            &&& h.req_id == req_id
            &&& h.seq == seq
            &&& h.body_len == 8
            &&& body.len() == 8
            &&& proto::bytes::u64_at(body, 0) == pool@
        },
{
    let req = vk::AllocateCommandBufferRequest { pool };
    vk::law_allocate_command_buffer_request_layout(req);
    proto::frame::law_made_frames(vk_op::ALLOCATE_COMMAND_BUFFER, req_id, seq, req.bytes());
}

/// The request frame of [`vk_op::QUEUE_SUBMIT`] carries what it was asked for: a
/// request under that opcode, the given request id and sequence number, and a body
/// of nothing but the arguments, in order.
pub proof fn law_queue_submit_request(
    queue: Handle,
    command_buffer: Handle,
    req_id: u32,
    seq: u64,
    frame: Vec<u8>,
)
    requires
        call_ensures(queue_submit_request, (queue, command_buffer, req_id, seq), frame),
    ensures
        proto::frame::parse_frame(frame@) matches Ok((h, body)) && {
            &&& h.kind == proto::FrameKind::Request
            &&& h.opcode == 0x0100_0022
            &&& h.req_id == req_id
            &&& h.seq == seq
            &&& h.body_len == 16
            &&& body.len() == 16
            &&& proto::bytes::u64_at(body, 0) == queue@
            &&& proto::bytes::u64_at(body, 8) == command_buffer@
        },
{
    let req = vk::QueueSubmitRequest { queue, command_buffer };
    vk::law_queue_submit_request_layout(req);
    proto::frame::law_made_frames(vk_op::QUEUE_SUBMIT, req_id, seq, req.bytes());
}

/// The request frame of [`vk_op::CMD_COPY_BUFFER`] carries what it was asked for: a
/// request under that opcode, the given request id and sequence number, and a body
/// of nothing but the arguments, in order.
pub proof fn law_cmd_copy_buffer_request(
    command_buffer: Handle,
    src: Handle,
    dst: Handle,
    size: u64,
    req_id: u32,
    seq: u64,
    frame: Vec<u8>,
)
    requires
        call_ensures(cmd_copy_buffer_request, (command_buffer, src, dst, size, req_id, seq), frame),
    ensures
        proto::frame::parse_frame(frame@) matches Ok((h, body)) && {
            &&& h.kind == proto::FrameKind::Request
            &&& h.opcode == 0x0100_0023
            &&& h.req_id == req_id
            &&& h.seq == seq
            &&& h.body_len == 32
            &&& body.len() == 32
            &&& proto::bytes::u64_at(body, 0) == command_buffer@
            &&& proto::bytes::u64_at(body, 8) == src@
            &&& proto::bytes::u64_at(body, 16) == dst@
            &&& proto::bytes::u64_at(body, 24) == size
        },
{
    let req = vk::CmdCopyBufferRequest { command_buffer, src, dst, size };
    vk::law_cmd_copy_buffer_request_layout(req);
    proto::frame::law_made_frames(vk_op::CMD_COPY_BUFFER, req_id, seq, req.bytes());
}

/// The request frame of [`vk_op::CMD_DRAW`] carries what it was asked for: a
/// request under that opcode, the given request id and sequence number, and a body
/// of nothing but the arguments, in order.
pub proof fn law_cmd_draw_request(
    command_buffer: Handle,
    vertex_count: u32,
    instance_count: u32,
    req_id: u32,
    seq: u64,
    frame: Vec<u8>,
)
    requires
        call_ensures(
            cmd_draw_request,
            (command_buffer, vertex_count, instance_count, req_id, seq),
            frame,
        ),
    ensures
        proto::frame::parse_frame(frame@) matches Ok((h, body)) && {
            &&& h.kind == proto::FrameKind::Request
            &&& h.opcode == 0x0100_0024
            &&& h.req_id == req_id
            &&& h.seq == seq
            &&& h.body_len == 16
            &&& body.len() == 16
            &&& proto::bytes::u64_at(body, 0) == command_buffer@
            &&& proto::bytes::u32_at(body, 8) == vertex_count
            &&& proto::bytes::u32_at(body, 12) == instance_count
        },
{
    let req = vk::CmdDrawRequest { command_buffer, vertex_count, instance_count };
    vk::law_cmd_draw_request_layout(req);
    proto::frame::law_made_frames(vk_op::CMD_DRAW, req_id, seq, req.bytes());
}

/// The request frame of [`vk_op::DESTROY_BUFFER`] carries what it was asked for: a
/// request under that opcode, the given request id and sequence number, and a body
/// of nothing but the arguments, in order.
pub proof fn law_destroy_buffer_request(
    buffer: Handle,
    req_id: u32,
    seq: u64,
    frame: Vec<u8>,
)
    requires
        call_ensures(destroy_buffer_request, (buffer, req_id, seq), frame),
    ensures
        proto::frame::parse_frame(frame@) matches Ok((h, body)) && {
            &&& h.kind == proto::FrameKind::Request
            &&& h.opcode == 0x0100_0013
            &&& h.req_id == req_id
            &&& h.seq == seq
            &&& h.body_len == 8
            &&& body.len() == 8
            &&& proto::bytes::u64_at(body, 0) == buffer@
        },
{
    let req = vk::DestroyBufferRequest { buffer };
    vk::law_destroy_buffer_request_layout(req);
    proto::frame::law_made_frames(vk_op::DESTROY_BUFFER, req_id, seq, req.bytes());
}

/// The request frame of [`vk_op::FREE_MEMORY`] carries what it was asked for: a
/// request under that opcode, the given request id and sequence number, and a body
/// of nothing but the arguments, in order.
pub proof fn law_free_memory_request(
    memory: Handle,
    req_id: u32,
    seq: u64,
    frame: Vec<u8>,
)
    requires
        call_ensures(free_memory_request, (memory, req_id, seq), frame),
    ensures
        proto::frame::parse_frame(frame@) matches Ok((h, body)) && {
            &&& h.kind == proto::FrameKind::Request
            &&& h.opcode == 0x0100_0014
            &&& h.req_id == req_id
            &&& h.seq == seq
            &&& h.body_len == 8
            &&& body.len() == 8
            &&& proto::bytes::u64_at(body, 0) == memory@
        },
{
    let req = vk::FreeMemoryRequest { memory };
    vk::law_free_memory_request_layout(req);
    proto::frame::law_made_frames(vk_op::FREE_MEMORY, req_id, seq, req.bytes());
}

/// The request frame of [`vk_op::DESTROY_COMMAND_POOL`] carries what it was asked
/// for: a request under that opcode, the given request id and sequence number, and
/// a body of nothing but the arguments, in order.
pub proof fn law_destroy_command_pool_request(
    pool: Handle,
    req_id: u32,
    seq: u64,
    frame: Vec<u8>,
)
    requires
        call_ensures(destroy_command_pool_request, (pool, req_id, seq), frame),
    ensures
        proto::frame::parse_frame(frame@) matches Ok((h, body)) && {
            &&& h.kind == proto::FrameKind::Request
            &&& h.opcode == 0x0100_0025
            &&& h.req_id == req_id
            &&& h.seq == seq
            &&& h.body_len == 8
            &&& body.len() == 8
            &&& proto::bytes::u64_at(body, 0) == pool@
        },
{
    let req = vk::DestroyCommandPoolRequest { pool };
    vk::law_destroy_command_pool_request_layout(req);
    proto::frame::law_made_frames(vk_op::DESTROY_COMMAND_POOL, req_id, seq, req.bytes());
}

} // verus!
