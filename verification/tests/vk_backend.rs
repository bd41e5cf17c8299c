//! Vulkan backend.
use graftx::protocol as proto;
use graftx::server::vk_backend::{KIND_INSTANCE, KIND_PHYSICAL_DEVICE};
use graftx::server::{Backend, VulkanBackend};

/// Encode a `CREATE_INSTANCE` request body.
fn create_instance_body(app_api_version: u32) -> Vec<u8> {
    let mut body = Vec::new();
    proto::vk::CreateInstanceRequest { app_api_version }.encode(&mut body);
    body
}

/// Encode an `ENUMERATE_PHYSICAL_DEVICES` request body for `instance`.
fn enumerate_body(instance: proto::Handle) -> Vec<u8> {
    let mut body = Vec::new();
    proto::vk::EnumeratePhysicalDevicesRequest { instance }.encode(&mut body);
    body
}

#[test]
fn create_instance_returns_decodable_handle() {
    let mut backend = VulkanBackend::new();
    let body = create_instance_body(0x0040_3000);
    let resp = backend
        .handle(proto::vk_op::CREATE_INSTANCE, 1, &body)
        .expect("create instance should succeed");

    let decoded = proto::vk::CreateInstanceResponse::decode(&resp).expect("decode response");
    assert_eq!(decoded.instance.kind(), KIND_INSTANCE);
    // The returned handle must resolve in the instance table.
    assert!(backend.instances.get(decoded.instance).is_some());
}

#[test]
fn enumerate_after_create_returns_one_device() {
    let mut backend = VulkanBackend::new();
    let create_body = create_instance_body(0);
    let create_resp = backend
        .handle(proto::vk_op::CREATE_INSTANCE, 1, &create_body)
        .expect("create instance should succeed");
    let instance = proto::vk::CreateInstanceResponse::decode(&create_resp)
        .expect("decode create response")
        .instance;

    let enum_body = enumerate_body(instance);
    let enum_resp = backend
        .handle(proto::vk_op::ENUMERATE_PHYSICAL_DEVICES, 2, &enum_body)
        .expect("enumerate should succeed");

    let decoded = proto::vk::EnumeratePhysicalDevicesResponse::decode(&enum_resp)
        .expect("decode enumerate response");
    assert_eq!(decoded.devices.len(), 1);
    let device = decoded.devices[0];
    assert_eq!(device.kind(), KIND_PHYSICAL_DEVICE);
    assert!(backend.physical_devices.get(device).is_some());
}

#[test]
fn enumerate_with_bogus_instance_errors() {
    let mut backend = VulkanBackend::new();
    // A handle that was never issued by this backend.
    let bogus = proto::Handle::new(KIND_INSTANCE, 0, 999);
    let body = enumerate_body(bogus);
    let err = backend
        .handle(proto::vk_op::ENUMERATE_PHYSICAL_DEVICES, 1, &body)
        .expect_err("enumerate with bogus instance must error");
    assert!(matches!(err, proto::ProtocolError::UnknownOpcode(_)));
}

#[test]
fn backend_out_of_namespace_opcode_errors() {
    let mut backend = VulkanBackend::new();
    // Opcode 0 is a core opcode, not in the Vulkan namespace.
    let err = backend
        .handle(0, 1, &[])
        .expect_err("non-vulkan opcode must error");
    assert!(matches!(err, proto::ProtocolError::UnknownOpcode(0)));
}

#[test]
fn parent_link_is_recorded() {
    let mut backend = VulkanBackend::new();
    let create_body = create_instance_body(0);
    let create_resp = backend
        .handle(proto::vk_op::CREATE_INSTANCE, 1, &create_body)
        .expect("create instance should succeed");
    let instance = proto::vk::CreateInstanceResponse::decode(&create_resp)
        .expect("decode create response")
        .instance;

    let enum_body = enumerate_body(instance);
    let enum_resp = backend
        .handle(proto::vk_op::ENUMERATE_PHYSICAL_DEVICES, 2, &enum_body)
        .expect("enumerate should succeed");
    let device = proto::vk::EnumeratePhysicalDevicesResponse::decode(&enum_resp)
        .expect("decode enumerate response")
        .devices[0];

    let state = backend
        .physical_devices
        .get(device)
        .expect("device state present");
    assert_eq!(state.parent.raw(), instance.raw());
}
