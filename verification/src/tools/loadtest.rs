//! GraftX in-process load generator.
//!
//! Drives many forwarded GPU calls through a client and a server session in one
//! process, with no hypervisor or GPU involved: the handshake, and then rounds
//! of `vkCreateInstance` followed by `vkEnumeratePhysicalDevices`. Every handled
//! frame is recorded in an [`ObsRegistry`].
use std::time::{Duration, Instant};

use vstd::prelude::*;

use crate::client::{Client, ClientError};
use crate::handles::TableState;
use crate::obs::timer::Timer;
use crate::obs::{CallStats, ObsRegistry};
use crate::protocol as proto;
use crate::protocol::bytes;
use crate::protocol::vk;
use crate::protocol::vk_op;
use crate::protocol::wire::Wire;
use crate::server::backend::{Call, Machine};
use crate::server::vk_backend::{InstanceState, VulkanState};
use crate::server::{Session, VulkanBackend};
use crate::text;

verus! {

broadcast use bytes::group_le_len;

/// Op count used when no positive count is supplied on the command line.
pub const DEFAULT_OPS: usize = 10_000;

/// Server-assigned session id used for the in-process session.
pub const SESSION_ID: u64 = 0x6C6F_6164;

/// Vulkan API version the load client advertises (`VK_MAKE_API_VERSION(0, 1, 3, 0)`).
pub const APP_API_VERSION: u32 = 0x0040_3000;

/// Parse the op count from the first CLI argument.
///
/// A missing or unparseable argument falls back to [`DEFAULT_OPS`]; the chosen
/// count is returned alongside a flag noting whether the fallback fired so the
/// caller can warn the user.
pub fn parse_ops(arg: Option<&str>) -> (r: (usize, bool))
    ensures
        match arg {
            None => r == (DEFAULT_OPS, false),
            Some(raw) => match text::number(raw@) {
                Some(n) => r == if n <= usize::MAX {
                    (n as usize, false)
                } else {
                    (DEFAULT_OPS, true)
                },
                None => r == (DEFAULT_OPS, true),
            },
        },
{
    match arg {
        Some(raw) => match text::parse_number(raw, usize::MAX as u64) {
            Some(n) => (n as usize, false),
            None => (DEFAULT_OPS, true),
        },
        None => (DEFAULT_OPS, false),
    }
}

/// Hand one request frame to the session, record the call if it was answered,
/// and return the reply.
fn exchange(session: &mut Session, registry: &mut ObsRegistry, frame: Vec<u8>) -> (r: Result<
    Vec<u8>,
    proto::ProtocolError,
>)
    requires
        old(session).inv(),
        old(session).spec_next_seq() < u64::MAX,
        old(registry).inv(),
    ensures
        final(session).inv(),
        final(registry).inv(),
        crate::server::session::handled(old(session), final(session), frame@, r),
        match r {
            Ok(reply) => {
                &&& crate::server::serve::frame_api_of(frame@) matches Some(api)
                &&& counted(
                    old(registry),
                    final(registry),
                    api,
                    frame@.len() as u64,
                    reply@.len() as u64,
                )
            },
            Err(_) => *final(registry) == *old(registry),
        },
{
    let r = session.handle(frame.as_slice());
    if let Ok(reply) = &r {
        crate::server::serve::record_served(registry, frame.as_slice(), reply.as_slice());
    }
    r
}

/// One call has been recorded under `api`.
spec fn counted(
    before: &ObsRegistry,
    after: &ObsRegistry,
    api: Seq<char>,
    bytes_out: u64,
    bytes_in: u64,
) -> bool {
    &&& after@ == crate::obs::registry::with_call(before@, api, bytes_out, bytes_in)
    &&& crate::obs::registry::total_of(after.spec_rows())
        == crate::obs::registry::total_of(before.spec_rows()).recorded(bytes_out, bytes_in)
}

/// Every slot of the table is occupied at generation zero, so that none waits
/// to be reused.
spec fn only_grown<T>(t: TableState<T>) -> bool {
    &&& t.free.len() == 0
    &&& forall|i: int|
        0 <= i < t.slots.len() ==> (#[trigger] t.slots[i]).generation == 0
            && t.slots[i].value is Some
}

/// What the load keeps true of the Vulkan objects: instances and physical
/// devices are only ever added, and every instance is live.
spec fn load_state(state: VulkanState) -> bool {
    &&& only_grown(state.instances)
    &&& only_grown(state.physical_devices)
    &&& forall|i: int|
        0 <= i < state.instances.slots.len() ==> (#[trigger] state.instances.slots[i]).value
            == Some(InstanceState { created: true })
}

/// The call that creates an instance.
spec fn create_call(req_id: u32) -> Call {
    Call {
        opcode: vk_op::CREATE_INSTANCE,
        req_id,
        body: (vk::CreateInstanceRequest { app_api_version: APP_API_VERSION }).bytes(),
    }
}

/// The call that lists the devices of an instance.
spec fn list_call(req_id: u32, instance: proto::Handle) -> Call {
    Call {
        opcode: vk_op::ENUMERATE_PHYSICAL_DEVICES,
        req_id,
        body: (vk::EnumeratePhysicalDevicesRequest { instance }).bytes(),
    }
}

/// Creating an instance answers with a new instance handle, which names a live
/// instance from then on.
proof fn lemma_create(state: VulkanState, req_id: u32) -> (instance: proto::Handle)
    requires
        load_state(state),
    ensures
        instance.spec_kind() == crate::client::vk::KIND_INSTANCE,
        state.step(create_call(req_id)).1 == Ok::<Seq<u8>, proto::ProtocolError>(
            (vk::CreateInstanceResponse { instance }).bytes(),
        ),
        load_state(state.step(create_call(req_id)).0),
        state.step(create_call(req_id)).0.has_instance(instance),
{
    let req = vk::CreateInstanceRequest { app_api_version: APP_API_VERSION };
    req.law_whole();
    let n = state.instances.slots.len();
    let instance = state.instances.next_handle(crate::server::vk_backend::KIND_INSTANCE);
    proto::handle::law_pack_fields(
        crate::server::vk_backend::KIND_INSTANCE,
        0,
        bytes::low_u32(n),
    );
    let after = state.step(create_call(req_id)).0;
    assert(after.instances.slots[instance.spec_slot() as int].generation == 0);
    instance
}

/// Listing the devices of a live instance answers with one new device handle.
proof fn lemma_list(state: VulkanState, req_id: u32, instance: proto::Handle) -> (device:
    proto::Handle)
    requires
        load_state(state),
        state.has_instance(instance),
    ensures
        device.spec_kind() == crate::client::vk::KIND_PHYSICAL_DEVICE,
        state.step(list_call(req_id, instance)).1 == Ok::<Seq<u8>, proto::ProtocolError>(
            vk::device_list_bytes(seq![device]),
        ),
        load_state(state.step(list_call(req_id, instance)).0),
{
    let req = vk::EnumeratePhysicalDevicesRequest { instance };
    req.law_whole();
    let n = state.physical_devices.slots.len();
    proto::handle::law_pack_fields(
        crate::server::vk_backend::KIND_PHYSICAL_DEVICE,
        0,
        bytes::low_u32(n),
    );
    state.physical_devices.next_handle(crate::server::vk_backend::KIND_PHYSICAL_DEVICE)
}

/// The statistics after a run of `n` rounds: one core call for the handshake,
/// and two Vulkan calls for each round, with the lengths of their frames.
pub open spec fn load_stats(before: Map<Seq<char>, CallStats>, n: nat) -> Map<Seq<char>, CallStats>
    decreases n,
{
    if n == 0 {
        crate::obs::registry::with_call(before, "core"@, 40, 48)
    } else {
        crate::obs::registry::with_call(
            crate::obs::registry::with_call(load_stats(before, (n - 1) as nat), "vulkan"@, 32, 36),
            "vulkan"@,
            36,
            40,
        )
    }
}

/// The aggregate after a run of `n` rounds.
pub open spec fn load_total(before: CallStats, n: nat) -> CallStats
    decreases n,
{
    if n == 0 {
        before.recorded(40, 48)
    } else {
        load_total(before, (n - 1) as nat).recorded(32, 36).recorded(36, 40)
    }
}

/// Until a counter is full, a run counts one call for the handshake and two for
/// each round.
pub proof fn law_load_total(n: nat)
    requires
        48 + 76 * n <= u64::MAX,
    ensures
        load_total(CallStats::zero(), n) == (CallStats {
            calls: (1 + 2 * n) as u64,
            bytes_out: (40 + 68 * n) as u64,
            bytes_in: (48 + 76 * n) as u64,
        }),
    decreases n,
{
    if n > 0 {
        law_load_total((n - 1) as nat);
    }
}

/// Until a counter is full, a run attributes one call to the core namespace, two
/// calls of each round to Vulkan, and nothing to any other API.
pub proof fn law_load_stats(n: nat)
    requires
        76 * n <= u64::MAX,
    ensures
        load_stats(Map::empty(), n).dom() == if n == 0 {
            set!["core"@]
        } else {
            set!["core"@, "vulkan"@]
        },
        load_stats(Map::empty(), n)["core"@] == (CallStats {
            calls: 1,
            bytes_out: 40,
            bytes_in: 48,
        }),
        n > 0 ==> load_stats(Map::empty(), n)["vulkan"@] == (CallStats {
            calls: (2 * n) as u64,
            bytes_out: (68 * n) as u64,
            bytes_in: (76 * n) as u64,
        }),
    decreases n,
{
    reveal_strlit("core");
    reveal_strlit("vulkan");
    assert("core"@.len() != "vulkan"@.len());
    if n > 0 {
        law_load_stats((n - 1) as nat);
    }
    assert(load_stats(Map::empty(), n).dom() =~= if n == 0 {
        set!["core"@]
    } else {
        set!["core"@, "vulkan"@]
    });
}

/// A request frame is counted under the name of its opcode's namespace.
proof fn lemma_request_api(opcode: u32, req_id: u32, seq: u64, body: Seq<u8>)
    requires
        body.len() <= u32::MAX,
    ensures
        crate::server::serve::frame_api_of(
            proto::frame::request_bytes(opcode, req_id, seq, body),
        ) == Some(crate::server::serve::api_name_of(proto::spec_opcode_api(opcode))),
{
    proto::frame::law_frame_round_trip(
        proto::frame::plain_header(
            proto::FrameKind::Request,
            opcode,
            req_id,
            seq,
            body.len() as u32,
        ),
        body,
    );
}

/// Drive `n` rounds of the Vulkan op pair through an in-process session,
/// recording every handled call into `registry`.
///
/// Registers a [`VulkanBackend`] on a fresh [`Session`], connects a [`Client`]
/// (running the handshake) and issues `n` rounds of `vkCreateInstance` and
/// `vkEnumeratePhysicalDevices`. Every request is answered. Returns the time the
/// client's part took. The replies of a session are numbered by a 64-bit
/// counter, which bounds the rounds.
pub fn drive(n: usize, registry: &mut ObsRegistry) -> (r: Result<Duration, ClientError>)
    requires
        2 * n + 1 < u64::MAX,
        old(registry).inv(),
    ensures
        r matches Ok(elapsed) && exists|start: Instant, end: Instant|
            elapsed == #[trigger] crate::obs::timer::time_between(start, end),
        final(registry).inv(),
        final(registry)@ == load_stats(old(registry)@, n as nat),
        crate::obs::registry::total_of(final(registry).spec_rows()) == load_total(
            crate::obs::registry::total_of(old(registry).spec_rows()),
            n as nat,
        ),
{
    let mut session = Session::new(SESSION_ID);
    session.register(Box::new(VulkanBackend::new()));
    let ghost mut state = VulkanState::empty();
    let ghost s0 = session;
    let stopwatch = Timer::start();
    let hello = crate::client::handshake_request();
    let ghost sent = hello@;
    proof {
        crate::client::law_handshake(
            crate::server::session::welcome(SESSION_ID, proto::DEFAULT_MAX_FRAME_BODY),
            1,
            1,
        );
        lemma_request_api(proto::core_op::HELLO, 1, 1, crate::client::hello().bytes());
    }
    let r = exchange(&mut session, registry, hello);
    proof {
        crate::server::session::law_other_namespace_untouched(&s0, &session, 1, state, sent, r);
    }
    let mut client = match r {
        Ok(reply) => Client::connect(&reply)?,
        Err(e) => {
            return Err(ClientError::Protocol(e));
        },
    };
    let mut i: usize = 0;
    while i < n
        invariant
            i <= n,
            2 * n + 1 < u64::MAX,
            session.inv(),
            session.spec_next_seq() == 2 + 2 * i,
            session.spec_max_frame_body() == proto::DEFAULT_MAX_FRAME_BODY,
            crate::server::session::serves(&session, 1, state),
            load_state(state),
            registry.inv(),
            registry@ == load_stats(old(registry)@, i as nat),
            crate::obs::registry::total_of(registry.spec_rows()) == load_total(
                crate::obs::registry::total_of(old(registry).spec_rows()),
                i as nat,
            ),
        decreases n - i,
    {
        let ghost (req_id, seq) = (client.spec_next_req_id(), client.spec_next_seq());
        let ghost before = session;
        let frame = client.vk_create_instance(APP_API_VERSION);
        let ghost sent = frame@;
        let ghost created = lemma_create(state, req_id);
        proof {
            crate::client::law_request_passes(
                vk_op::CREATE_INSTANCE,
                req_id,
                seq,
                create_call(req_id).body,
                proto::DEFAULT_MAX_FRAME_BODY,
            );
            crate::client::vk::law_create_instance_exchange(
                APP_API_VERSION,
                created,
                req_id,
                seq,
                session.spec_next_seq(),
            );
            lemma_request_api(vk_op::CREATE_INSTANCE, req_id, seq, create_call(req_id).body);
        }
        let r = exchange(&mut session, registry, frame);
        proof {
            crate::server::session::law_served_call(&before, &session, state, sent, r);
            state = state.step(create_call(req_id)).0;
        }
        let instance = match r {
            Ok(reply) => crate::client::vk::create_instance_reply(&reply)?,
            Err(e) => {
                return Err(ClientError::Protocol(e));
            },
        };
        let ghost (req_id, seq) = (client.spec_next_req_id(), client.spec_next_seq());
        let ghost before = session;
        let frame = client.vk_enumerate_physical_devices(instance);
        let ghost sent = frame@;
        let ghost device = lemma_list(state, req_id, instance);
        proof {
            crate::client::law_request_passes(
                vk_op::ENUMERATE_PHYSICAL_DEVICES,
                req_id,
                seq,
                list_call(req_id, instance).body,
                proto::DEFAULT_MAX_FRAME_BODY,
            );
            crate::client::vk::law_enumerate_physical_devices_exchange(
                instance,
                seq![device],
                req_id,
                seq,
                session.spec_next_seq(),
            );
            vk::law_device_list_len(seq![device]);
            lemma_request_api(
                vk_op::ENUMERATE_PHYSICAL_DEVICES,
                req_id,
                seq,
                list_call(req_id, instance).body,
            );
        }
        let r = exchange(&mut session, registry, frame);
        proof {
            crate::server::session::law_served_call(&before, &session, state, sent, r);
            state = state.step(list_call(req_id, instance)).0;
        }
        let _devices = match r {
            Ok(reply) => crate::client::vk::enumerate_physical_devices_reply(&reply)?,
            Err(e) => {
                return Err(ClientError::Protocol(e));
            },
        };
        i = i + 1;
    }
    Ok(stopwatch.elapsed())
}

/// Drive `n` ops through the in-process session and return the aggregate
/// [`CallStats`] that were recorded.
///
/// It owns a fresh [`ObsRegistry`], runs [`drive`], and folds the per-API
/// statistics into a single total via [`ObsRegistry::total`].
pub fn run_load(n: usize) -> (total: CallStats)
    requires
        2 * n + 1 < u64::MAX,
    ensures
        total == load_total(CallStats::zero(), n as nat),
{
    let mut registry = ObsRegistry::new();
    match drive(n, &mut registry) {
        Ok(_elapsed) => registry.total(),
        Err(_) => CallStats::default(),
    }
}

/// A load of `n` rounds makes `2 n + 1` calls, all of them answered: the handshake
/// with 40 bytes out and 48 in, and in each round 68 bytes out and 76 in.
pub proof fn law_load_counts(n: usize, total: CallStats)
    requires
        call_ensures(run_load, (n,), total),
        48 + 76 * n <= u64::MAX,
    ensures
        total.calls == 2 * n + 1,
        total.bytes_out == 40 + 68 * n,
        total.bytes_in == 48 + 76 * n,
{
    law_load_total(n as nat);
}

/// Without an argument the default count is taken; a number in range is taken as it
/// is; anything else falls back to the default, with a note that it did.
pub proof fn law_ops_parsed(arg: Option<&str>, n: nat, r: (usize, bool))
    requires
        call_ensures(parse_ops, (arg,), r),
    ensures
        arg is None ==> r == (10_000usize, false),
        arg matches Some(raw) && raw@ == text::dec(n) && n <= usize::MAX ==> r == (
            n as usize,
            false,
        ),
        arg matches Some(raw) && raw@ == text::dec(n) && n > usize::MAX ==> r == (10_000usize, true),
        arg matches Some(raw) && text::number(raw@) is None ==> r == (10_000usize, true),
{
    text::law_dec_reads_back(n);
}

/// A run over a registry without entries leaves one call under the core namespace,
/// two for each round under Vulkan, with the bytes of their frames, and nothing
/// under any other name, until a counter is full.
pub proof fn law_drive_records(
    n: usize,
    registry: &mut ObsRegistry,
    r: Result<Duration, ClientError>,
    other: Seq<char>,
)
    requires
        call_ensures(drive, (n, registry), r),
        old(registry)@ == Map::<Seq<char>, CallStats>::empty(),
        76 * n <= u64::MAX,
    ensures
        r is Ok,
        final(registry)@.contains_key("core"@),
        final(registry)@["core"@] == (CallStats { calls: 1, bytes_out: 40, bytes_in: 48 }),
        final(registry)@.contains_key("vulkan"@) <==> n > 0,
        n > 0 ==> final(registry)@["vulkan"@].calls == 2 * n,
        n > 0 ==> final(registry)@["vulkan"@].bytes_out == (28 + 4 + 28 + 8) * n,
        n > 0 ==> final(registry)@["vulkan"@].bytes_in == (28 + 8 + 28 + 4 + 8) * n,
        other != "core"@ && other != "vulkan"@ ==> !final(registry)@.contains_key(other),
{
    reveal_strlit("core");
    reveal_strlit("vulkan");
    assert("core"@.len() != "vulkan"@.len());
    law_load_stats(n as nat);
    let stats = load_stats(Map::empty(), n as nat);
    assert(stats.contains_key("core"@) == stats.dom().contains("core"@));
    assert(stats.contains_key("vulkan"@) == stats.dom().contains("vulkan"@));
    assert(stats.contains_key(other) == stats.dom().contains(other));
}

} // verus!
