//! Serve loop.
use std::collections::HashMap;

use graftx::client;
use graftx::client::{gl, vk};
use graftx::obs::{CallStats, ObsRegistry};
use graftx::protocol as proto;
use graftx::server::serve::{
    api_name, frame_api, record_served, serve_step, Received, ServeStep,
};
use graftx::server::{GlBackend, Session, VulkanBackend};

/// Let the serve loop handle one received frame, and return the reply that it
/// is to send.
fn serve(session: &mut Session, request: Vec<u8>) -> Vec<u8> {
    match serve_step(session, Received::Frame(request)) {
        ServeStep::Reply { reply, .. } => reply,
        other => panic!("expected a reply, got {other:?}"),
    }
}

/// As [`serve`], recording the call once its reply has been sent.
fn serve_with_metrics(
    session: &mut Session,
    registry: &mut ObsRegistry,
    request: Vec<u8>,
) -> Vec<u8> {
    match serve_step(session, Received::Frame(request)) {
        ServeStep::Reply { frame, reply } => {
            record_served(registry, &frame, &reply);
            reply
        }
        other => panic!("expected a reply, got {other:?}"),
    }
}

#[test]
fn api_name_maps_known_namespaces_and_falls_back() {
    assert_eq!(api_name(0x00), "core");
    assert_eq!(api_name(0x01), "vulkan");
    assert_eq!(api_name(0x0B), "amf");
    // Every defined ApiId byte resolves to a non-"unknown" label.
    for api in 0x00u8..=0x0B {
        assert_ne!(api_name(api), "unknown", "api {api:#04x} should be named");
    }
    // Bytes outside the defined range fall back.
    assert_eq!(api_name(0x0C), "unknown");
    assert_eq!(api_name(0xFF), "unknown");
}

#[test]
fn serve_with_metrics_records_per_api_call_counts() {
    let mut registry = ObsRegistry::new();
    let mut session = Session::new(0x51);
    session.register(Box::new(VulkanBackend::new()));

    // Core traffic: one handshake (HELLO) plus two no-ops.
    let reply = serve_with_metrics(&mut session, &mut registry, client::handshake_request());
    let welcome = client::handshake_reply(&reply).expect("handshake");
    assert_eq!(welcome.session_id, 0x51);
    let reply = serve_with_metrics(&mut session, &mut registry, client::noop_request(2, 2));
    client::noop_reply(&reply).expect("first noop");
    let reply = serve_with_metrics(&mut session, &mut registry, client::noop_request(3, 3));
    client::noop_reply(&reply).expect("second noop");

    // Vulkan traffic: create an instance, then enumerate its devices.
    let request = vk::create_instance_request(0, 4, 4);
    let reply = serve_with_metrics(&mut session, &mut registry, request);
    let instance = vk::create_instance_reply(&reply).expect("create instance");
    let request = vk::enumerate_physical_devices_request(instance, 5, 5);
    let reply = serve_with_metrics(&mut session, &mut registry, request);
    let devices = vk::enumerate_physical_devices_reply(&reply).expect("enumerate devices");
    assert_eq!(devices.len(), 1);

    // The peer's close ends the loop without error.
    assert_eq!(serve_step(&mut session, Received::PeerClosed), ServeStep::Finish);

    let snapshot: HashMap<&str, CallStats> = registry.snapshot().into_iter().collect();
    // HELLO + two NOOPs are all in the core namespace.
    assert_eq!(snapshot["core"].calls, 3);
    // create_instance + enumerate_physical_devices are both Vulkan.
    assert_eq!(snapshot["vulkan"].calls, 2);
    // Only the two namespaces that saw traffic are present.
    assert_eq!(snapshot.len(), 2);

    // Byte counters are populated for every recorded call.
    assert!(snapshot["core"].bytes_out > 0);
    assert!(snapshot["core"].bytes_in > 0);
    assert!(snapshot["vulkan"].bytes_out > 0);
    assert!(snapshot["vulkan"].bytes_in > 0);
}

#[test]
fn serve_handles_frames_then_returns_on_peer_drop() {
    let mut session = Session::new(0x51);
    session.register(Box::new(VulkanBackend::new()));

    // Client: handshake, then a noop round-trip against the served session.
    let reply = serve(&mut session, client::handshake_request());
    let welcome = client::handshake_reply(&reply).expect("handshake");
    assert_eq!(welcome.session_id, 0x51);
    let reply = serve(&mut session, client::noop_request(2, 2));
    client::noop_reply(&reply).expect("noop");

    // The peer's close ends the loop without error.
    assert_eq!(serve_step(&mut session, Received::PeerClosed), ServeStep::Finish);
}

#[test]
fn metrics_record_core_vulkan_and_opengl_across_backends() {
    let mut registry = ObsRegistry::new();
    let mut session = Session::new(0x00C0_FFEE);
    session.register(Box::new(VulkanBackend::new()));
    session.register(Box::new(GlBackend::new()));

    let hello = client::handshake_request();
    let hello_len = hello.len() as u64;
    let reply = serve_with_metrics(&mut session, &mut registry, hello);
    let hello_reply_len = reply.len() as u64;
    let welcome = client::handshake_reply(&reply).expect("handshake");
    assert_eq!(welcome.session_id, 0x00C0_FFEE);
    let request = vk::create_instance_request(0, 2, 2);
    let reply = serve_with_metrics(&mut session, &mut registry, request);
    vk::create_instance_reply(&reply).expect("create instance");
    let request = gl::create_context_request(3, 3);
    let reply = serve_with_metrics(&mut session, &mut registry, request);
    gl::create_context_reply(&reply).expect("create context");

    assert_eq!(
        registry.get("core"),
        Some(CallStats { calls: 1, bytes_out: hello_len, bytes_in: hello_reply_len })
    );
    assert_eq!(registry.get("vulkan").map(|stats| stats.calls), Some(1));
    assert_eq!(registry.get("opengl").map(|stats| stats.calls), Some(1));
    assert_eq!(registry.get("cuda"), None);
}

#[test]
fn transport_failure_and_refused_frame_end_the_loop() {
    let mut session = Session::new(1);
    assert_eq!(serve_step(&mut session, Received::Failed), ServeStep::Fail);
    // A frame that the session refuses ends the loop without error.
    assert_eq!(
        serve_step(&mut session, Received::Frame(vec![0u8; 4])),
        ServeStep::Finish
    );
}

#[test]
fn frames_are_named_by_their_opcode() {
    assert_eq!(frame_api(&client::noop_request(1, 1)), Some("core"));
    assert_eq!(frame_api(&vk::create_instance_request(0, 1, 1)), Some("vulkan"));
    assert_eq!(frame_api(&[0u8; 4]), None);

    // A frame without a header is not counted.
    let mut registry = ObsRegistry::new();
    record_served(&mut registry, &[0u8; 4], &[]);
    assert!(registry.snapshot().is_empty());
    assert_eq!(proto::opcode_api(proto::vk_op::CREATE_INSTANCE), 1);
}
