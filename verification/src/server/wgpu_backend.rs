//! WebGPU backend dispatch.
//!
//! The [`Session`](crate::server::Session) routes any WebGPU-namespace opcode to this
//! backend. Like the Vulkan, OpenGL, and CUDA backends, the WebGPU backend is a
//! pure-Rust **stub**: it tracks object lifetimes in generational handle tables
//! but performs no real driver work. No `wgpu`, Dawn, browser, or FFI
//! dependency is involved.
use vstd::prelude::*;

use super::backend;
use super::backend::{Answer, Backend, Call, Keeps, Machine};
use crate::handles;
use crate::handles::{HandleTable, TableOp, TableState};
use crate::protocol as proto;
use crate::protocol::wgpu;
use crate::protocol::wgpu_op;
use crate::protocol::wire::Wire;

verus! {

broadcast use crate::protocol::bytes::lemma_append_to_empty;

/// Server object kind for a WebGPU device handle.
pub const KIND_WGPU_DEVICE: u8 = 70;

/// Server object kind for a WebGPU buffer handle.
pub const KIND_WGPU_BUFFER: u8 = 71;

/// Server-side state tracked for one requested WebGPU device.
///
/// The device carries no parameters yet; the unit-only field keeps the type a
/// non-zero-sized table entry and leaves room for negotiated limits.
#[derive(Debug)]
pub struct WgpuDevState;

/// Server-side state tracked for one created WebGPU buffer.
#[derive(Debug)]
pub struct WgpuBufState {
    /// The device handle this buffer was created on. Recorded
    /// for lifetime and ownership checks.
    pub device: proto::Handle,
    /// Size of the buffer in bytes.
    pub size: u64,
    /// Buffer usage flag bits.
    pub usage: u32,
}

/// Pure-Rust WebGPU backend stub.
///
/// Owns generational handle tables for the WebGPU objects it tracks. It answers
/// [`wgpu_op::REQUEST_DEVICE`](proto::wgpu_op::REQUEST_DEVICE) by minting a
/// device handle, [`wgpu_op::CREATE_BUFFER`](proto::wgpu_op::CREATE_BUFFER) by
/// minting a buffer handle parented to a known device, and
/// [`wgpu_op::DESTROY_BUFFER`](proto::wgpu_op::DESTROY_BUFFER) by removing a
/// known buffer handle and acknowledging with an empty body. The real driver
/// bridge lands later; every other WebGPU call is reported as
/// not-yet-implemented via
/// [`ProtocolError::UnknownOpcode`](proto::ProtocolError::UnknownOpcode).
pub struct WebGpuBackend {
    /// The devices.
    pub devices: HandleTable<WgpuDevState>,
    /// The buffers.
    pub buffers: HandleTable<WgpuBufState>,
}

/// What the WebGPU backend holds.
pub ghost struct WgpuState {
    /// The devices.
    pub devices: TableState<WgpuDevState>,
    /// The buffers.
    pub buffers: TableState<WgpuBufState>,
}

impl WgpuState {
    /// The state without objects.
    pub open spec fn empty() -> Self {
        WgpuState { devices: TableState::empty(), buffers: TableState::empty() }
    }
}

impl Machine for WgpuState {
    open spec fn ok(self) -> bool {
        &&& self.devices.inv()
        &&& self.buffers.inv()
    }

    open spec fn step(self, call: Call) -> (Self, Answer) {
        let unknown: (Self, Answer) = (self, Err(proto::ProtocolError::UnknownOpcode(call.opcode)));
        if call.opcode == wgpu_op::REQUEST_DEVICE {
            (
                WgpuState {
                    devices: self.devices.inserted(WgpuDevState),
                    ..self
                },
                Ok(
                    (wgpu::RequestDeviceResponse {
                        device: self.devices.next_handle(KIND_WGPU_DEVICE),
                    }).bytes(),
                ),
            )
        } else if call.opcode == wgpu_op::CREATE_BUFFER {
            match wgpu::CreateBufferRequest::parse(call.body) {
                Err(e) => (self, Err(e)),
                Ok(req) => if self.devices.lookup(req.device) is Some {
                    (
                        WgpuState {
                            buffers: self.buffers.inserted(
                                WgpuBufState {
                                    device: req.device,
                                    size: req.size,
                                    usage: req.usage,
                                },
                            ),
                            ..self
                        },
                        Ok(
                            (wgpu::CreateBufferResponse {
                                buffer: self.buffers.next_handle(KIND_WGPU_BUFFER),
                            }).bytes(),
                        ),
                    )
                } else {
                    unknown
                },
            }
        } else if call.opcode == wgpu_op::DESTROY_BUFFER {
            match wgpu::DestroyBufferRequest::parse(call.body) {
                Err(e) => (self, Err(e)),
                Ok(req) => if self.buffers.lookup(req.buffer) is Some {
                    (
                        WgpuState { buffers: self.buffers.removed(req.buffer), ..self },
                        Ok(seq![]),
                    )
                } else {
                    unknown
                },
            }
        } else {
            unknown
        }
    }

    proof fn law_step_keeps(self, call: Call) {
        crate::handles::law_table_keeps(self.devices);
        crate::handles::law_table_keeps(self.buffers);
    }

    proof fn law_refusal_changes_nothing(self, call: Call) {
    }

    proof fn law_req_id_plays_no_part(self, call: Call, req_id: u32) {
    }
}

impl View for WebGpuBackend {
    type V = WgpuState;

    open spec fn view(&self) -> WgpuState {
        WgpuState { devices: self.devices@, buffers: self.buffers@ }
    }
}

impl WebGpuBackend {
    /// Create a new WebGPU backend stub with empty object tables.
    #[must_use]
    pub fn new() -> (backend: Self)
        ensures
            backend.inv(),
            backend@ == WgpuState::empty(),
    {
        Self { devices: HandleTable::new(), buffers: HandleTable::new() }
    }
}

impl Default for WebGpuBackend {
    fn default() -> (backend: Self)
        ensures
            backend.inv(),
            backend@ == WgpuState::empty(),
    {
        Self::new()
    }
}

impl Backend for WebGpuBackend {
    open spec fn inv(&self) -> bool {
        &&& self.devices.wf()
        &&& self.buffers.wf()
    }

    open spec fn spec_api(&self) -> proto::ApiId {
        proto::ApiId::WebGpu
    }

    open spec fn answer(&self, past: Seq<Call>, call: Call) -> Answer {
        super::backend::run_answer(self@, past, call)
    }

    fn api(&self) -> (api: proto::ApiId) {
        proto::ApiId::WebGpu
    }

    fn handle(
        &mut self,
        opcode: u32,
        req_id: u32,
        body: &[u8],
    ) -> (r: Result<Vec<u8>, proto::ProtocolError>)
        ensures
            (final(self)@, super::backend::answer_of(r)) == old(self)@.step(
                Call { opcode, req_id, body: body@ },
            ),
    {
        proof {
            super::backend::law_step_then_answer(self@, Call { opcode, req_id, body: body@ });
        }
        // Reject anything outside the WebGPU namespace outright.
        if proto::opcode_api(opcode) != proto::ApiId::WebGpu.to_byte() {
            return Err(proto::ProtocolError::UnknownOpcode(opcode));
        }
        match opcode {
            wgpu_op::REQUEST_DEVICE => {
                // The request body is empty; mint a fresh device handle.
                let device = self.devices.insert(KIND_WGPU_DEVICE, WgpuDevState);
                let mut out: Vec<u8> = Vec::new();
                (wgpu::RequestDeviceResponse { device }).encode(&mut out);
                Ok(out)
            },
            wgpu_op::CREATE_BUFFER => {
                let req = wgpu::CreateBufferRequest::decode(body)?;
                // The device must have been requested on this backend.
                if self.devices.get(req.device).is_none() {
                    return Err(proto::ProtocolError::UnknownOpcode(opcode));
                }
                let buffer = self.buffers.insert(
                    KIND_WGPU_BUFFER,
                    WgpuBufState { device: req.device, size: req.size, usage: req.usage },
                );
                let mut out: Vec<u8> = Vec::new();
                (wgpu::CreateBufferResponse { buffer }).encode(&mut out);
                Ok(out)
            },
            wgpu_op::DESTROY_BUFFER => {
                let req = wgpu::DestroyBufferRequest::decode(body)?;
                // The buffer must have been created on this backend and still be
                // live; removing it both validates and frees it.
                if self.buffers.remove(req.buffer).is_none() {
                    return Err(proto::ProtocolError::UnknownOpcode(opcode));
                }
                // Acknowledge with an empty body.
                Ok(Vec::new())
            },
            // Everything else in the WebGPU namespace is not implemented yet.
            other => Err(proto::ProtocolError::UnknownOpcode(other)),
        }
    }
}

impl Keeps<WgpuDevState> for WgpuState {
    open spec fn table(self) -> TableState<WgpuDevState> {
        self.devices
    }

    open spec fn op(self, call: Call) -> TableOp<WgpuDevState> {
        if call.opcode == wgpu_op::REQUEST_DEVICE {
            TableOp::Insert(WgpuDevState)
        } else {
            TableOp::Read
        }
    }

    proof fn law_call_is_op(self, call: Call) {
    }
}

impl Keeps<WgpuBufState> for WgpuState {
    open spec fn table(self) -> TableState<WgpuBufState> {
        self.buffers
    }

    open spec fn op(self, call: Call) -> TableOp<WgpuBufState> {
        if call.opcode == wgpu_op::CREATE_BUFFER {
            match wgpu::CreateBufferRequest::parse(call.body) {
                Ok(req) => if self.devices.lookup(req.device) is Some {
                    TableOp::Insert(
                        WgpuBufState { device: req.device, size: req.size, usage: req.usage },
                    )
                } else {
                    TableOp::Read
                },
                Err(_) => TableOp::Read,
            }
        } else if call.opcode == wgpu_op::DESTROY_BUFFER {
            match wgpu::DestroyBufferRequest::parse(call.body) {
                Ok(req) => TableOp::Remove(req.buffer),
                Err(_) => TableOp::Read,
            }
        } else {
            TableOp::Read
        }
    }

    proof fn law_call_is_op(self, call: Call) {
    }
}

/// Whether `call` is a [`wgpu_op::DESTROY_BUFFER`] that names the object of `h`.
pub open spec fn is_destroy_buffer(call: Call, h: proto::Handle) -> bool {
    &&& call.opcode == wgpu_op::DESTROY_BUFFER
    &&& wgpu::DestroyBufferRequest::parse(call.body) matches Ok(req)
    &&& handles::same_object(req.buffer, h)
}

/// The history of the devices: a call has made the object of a handle if and only
/// if it was a [`wgpu_op::REQUEST_DEVICE`] answered with a handle of the same slot
/// and generation, and no call takes one away.
pub proof fn law_devices_history(past: Seq<Call>, i: int, h: proto::Handle)
    ensures
        backend::makes::<WgpuDevState, WgpuState>(WgpuState::empty(), past, i, h) <==> {
            &&& 0 <= i < past.len()
            &&& past[i].opcode == wgpu_op::REQUEST_DEVICE
            &&& exists|g: proto::Handle| #[trigger]
                handles::same_object(g, h) && backend::run_answer(
                    WgpuState::empty(),
                    past.take(i),
                    past[i],
                ) == Answer::Ok((wgpu::RequestDeviceResponse { device: g }).bytes())
        },
        !backend::takes::<WgpuDevState, WgpuState>(WgpuState::empty(), past, i, h),
{
    if 0 <= i < past.len() {
        let s = backend::run_state(WgpuState::empty(), past.take(i));
        let made = s.devices.next_handle(KIND_WGPU_DEVICE);
        backend::law_answer_of_state(WgpuState::empty(), past.take(i), past[i]);
        handles::law_next_handle_kinds(s.devices, 0, KIND_WGPU_DEVICE);
        let of_made = wgpu::RequestDeviceResponse { device: made };
        of_made.law_whole();
        if backend::makes::<WgpuDevState, WgpuState>(WgpuState::empty(), past, i, h) {
            assert(handles::same_object(made, h));
        }
        if exists|g: proto::Handle| #[trigger]
            handles::same_object(g, h) && backend::run_answer(
                WgpuState::empty(),
                past.take(i),
                past[i],
            ) == Answer::Ok((wgpu::RequestDeviceResponse { device: g }).bytes()) {
            let g = choose|g: proto::Handle| #[trigger]
                handles::same_object(g, h) && backend::run_answer(
                    WgpuState::empty(),
                    past.take(i),
                    past[i],
                ) == Answer::Ok((wgpu::RequestDeviceResponse { device: g }).bytes());
            let of_g = wgpu::RequestDeviceResponse { device: g };
            of_g.law_whole();
        }
    }
}

/// No two [`wgpu_op::REQUEST_DEVICE`] calls are answered with handles of the same
/// slot and generation, and each handle is of its kind.
pub proof fn law_request_device_issues_once(
    past: Seq<Call>,
    i: int,
    j: int,
    g: proto::Handle,
    h: proto::Handle,
)
    requires
        0 <= i < j < past.len(),
        past[i].opcode == wgpu_op::REQUEST_DEVICE,
        past[j].opcode == wgpu_op::REQUEST_DEVICE,
        backend::run_answer(WgpuState::empty(), past.take(i), past[i]) == Answer::Ok(
            (wgpu::RequestDeviceResponse { device: g }).bytes(),
        ),
        backend::run_answer(WgpuState::empty(), past.take(j), past[j]) == Answer::Ok(
            (wgpu::RequestDeviceResponse { device: h }).bytes(),
        ),
        backend::run_state(WgpuState::empty(), past).devices.slots.len() <= 0x1_0000_0000,
    ensures
        !handles::same_object(g, h),
        g.spec_kind() == KIND_WGPU_DEVICE,
        h.spec_kind() == KIND_WGPU_DEVICE,
{
    let empty = WgpuState::empty();
    let s = backend::run_state(empty, past.take(i));
    let t = backend::run_state(empty, past.take(j));
    backend::law_answer_of_state(empty, past.take(i), past[i]);
    backend::law_answer_of_state(empty, past.take(j), past[j]);
    let of_g = wgpu::RequestDeviceResponse { device: g };
    of_g.law_whole();
    let of_h = wgpu::RequestDeviceResponse { device: h };
    of_h.law_whole();
    let made_i = s.devices.next_handle(KIND_WGPU_DEVICE);
    let of_made_i = wgpu::RequestDeviceResponse { device: made_i };
    of_made_i.law_whole();
    let made_j = t.devices.next_handle(KIND_WGPU_DEVICE);
    let of_made_j = wgpu::RequestDeviceResponse { device: made_j };
    of_made_j.law_whole();
    backend::law_made_once::<WgpuDevState, WgpuState>(empty, past, i, j, KIND_WGPU_DEVICE);
}

/// The history of the buffers: a call has made the object of a handle if and only
/// if it was a [`wgpu_op::CREATE_BUFFER`] answered with a handle of the same slot
/// and generation, and takes it away if and only if it is a
/// [`wgpu_op::DESTROY_BUFFER`] that names it.
pub proof fn law_buffers_history(past: Seq<Call>, i: int, h: proto::Handle)
    ensures
        backend::makes::<WgpuBufState, WgpuState>(WgpuState::empty(), past, i, h) <==> {
            &&& 0 <= i < past.len()
            &&& past[i].opcode == wgpu_op::CREATE_BUFFER
            &&& exists|g: proto::Handle| #[trigger]
                handles::same_object(g, h) && backend::run_answer(
                    WgpuState::empty(),
                    past.take(i),
                    past[i],
                ) == Answer::Ok((wgpu::CreateBufferResponse { buffer: g }).bytes())
        },
        backend::takes::<WgpuBufState, WgpuState>(WgpuState::empty(), past, i, h)
            <==> 0 <= i < past.len() && is_destroy_buffer(past[i], h),
{
    if 0 <= i < past.len() {
        let s = backend::run_state(WgpuState::empty(), past.take(i));
        let made = s.buffers.next_handle(KIND_WGPU_BUFFER);
        backend::law_answer_of_state(WgpuState::empty(), past.take(i), past[i]);
        handles::law_next_handle_kinds(s.buffers, 0, KIND_WGPU_BUFFER);
        let of_made = wgpu::CreateBufferResponse { buffer: made };
        of_made.law_whole();
        if backend::makes::<WgpuBufState, WgpuState>(WgpuState::empty(), past, i, h) {
            assert(handles::same_object(made, h));
        }
        if exists|g: proto::Handle| #[trigger]
            handles::same_object(g, h) && backend::run_answer(
                WgpuState::empty(),
                past.take(i),
                past[i],
            ) == Answer::Ok((wgpu::CreateBufferResponse { buffer: g }).bytes()) {
            let g = choose|g: proto::Handle| #[trigger]
                handles::same_object(g, h) && backend::run_answer(
                    WgpuState::empty(),
                    past.take(i),
                    past[i],
                ) == Answer::Ok((wgpu::CreateBufferResponse { buffer: g }).bytes());
            let of_g = wgpu::CreateBufferResponse { buffer: g };
            of_g.law_whole();
        }
    }
}

/// No two [`wgpu_op::CREATE_BUFFER`] calls are answered with handles of the same
/// slot and generation, and each handle is of its kind.
pub proof fn law_create_buffer_issues_once(
    past: Seq<Call>,
    i: int,
    j: int,
    g: proto::Handle,
    h: proto::Handle,
)
    requires
        0 <= i < j < past.len(),
        past[i].opcode == wgpu_op::CREATE_BUFFER,
        past[j].opcode == wgpu_op::CREATE_BUFFER,
        backend::run_answer(WgpuState::empty(), past.take(i), past[i]) == Answer::Ok(
            (wgpu::CreateBufferResponse { buffer: g }).bytes(),
        ),
        backend::run_answer(WgpuState::empty(), past.take(j), past[j]) == Answer::Ok(
            (wgpu::CreateBufferResponse { buffer: h }).bytes(),
        ),
        backend::run_state(WgpuState::empty(), past).buffers.slots.len() <= 0x1_0000_0000,
    ensures
        !handles::same_object(g, h),
        g.spec_kind() == KIND_WGPU_BUFFER,
        h.spec_kind() == KIND_WGPU_BUFFER,
{
    let empty = WgpuState::empty();
    let s = backend::run_state(empty, past.take(i));
    let t = backend::run_state(empty, past.take(j));
    backend::law_answer_of_state(empty, past.take(i), past[i]);
    backend::law_answer_of_state(empty, past.take(j), past[j]);
    let of_g = wgpu::CreateBufferResponse { buffer: g };
    of_g.law_whole();
    let of_h = wgpu::CreateBufferResponse { buffer: h };
    of_h.law_whole();
    let made_i = s.buffers.next_handle(KIND_WGPU_BUFFER);
    let of_made_i = wgpu::CreateBufferResponse { buffer: made_i };
    of_made_i.law_whole();
    let made_j = t.buffers.next_handle(KIND_WGPU_BUFFER);
    let of_made_j = wgpu::CreateBufferResponse { buffer: made_j };
    of_made_j.law_whole();
    backend::law_made_once::<WgpuBufState, WgpuState>(empty, past, i, j, KIND_WGPU_BUFFER);
}

/// A [`wgpu_op::CREATE_BUFFER`] is answered if and only if the device it names was
/// made by an earlier call; else it is refused.
pub proof fn law_create_buffer_iff_live(past: Seq<Call>, call: Call)
    requires
        call.opcode == wgpu_op::CREATE_BUFFER,
        wgpu::CreateBufferRequest::parse(call.body) is Ok,
        backend::run_state(WgpuState::empty(), past).devices.slots.len() <= 0x1_0000_0000,
    ensures
        ({
            let h = wgpu::CreateBufferRequest::parse(call.body)->Ok_0.device;
            if backend::is_live::<WgpuDevState, WgpuState>(WgpuState::empty(), past, h) {
                backend::run_answer(WgpuState::empty(), past, call) == Answer::Ok(
                    (wgpu::CreateBufferResponse {
                        buffer: backend::run_state(
                            WgpuState::empty(),
                            past,
                        ).buffers.next_handle(KIND_WGPU_BUFFER),
                    }).bytes(),
                )
            } else {
                backend::run_answer(WgpuState::empty(), past, call) == Answer::Err(
                    proto::ProtocolError::UnknownOpcode(call.opcode),
                )
            }
        }),
{
    let h = wgpu::CreateBufferRequest::parse(call.body)->Ok_0.device;
    backend::law_live_is_history::<WgpuDevState, WgpuState>(WgpuState::empty(), past, h);
    backend::law_answer_of_state(WgpuState::empty(), past, call);
}

/// A [`wgpu_op::DESTROY_BUFFER`] is answered if and only if the buffer it names was
/// made by an earlier call and not taken away since; else it is refused.
pub proof fn law_destroy_buffer_iff_live(past: Seq<Call>, call: Call)
    requires
        call.opcode == wgpu_op::DESTROY_BUFFER,
        wgpu::DestroyBufferRequest::parse(call.body) is Ok,
        backend::run_state(WgpuState::empty(), past).buffers.slots.len() <= 0x1_0000_0000,
    ensures
        ({
            let h = wgpu::DestroyBufferRequest::parse(call.body)->Ok_0.buffer;
            if backend::is_live::<WgpuBufState, WgpuState>(WgpuState::empty(), past, h) {
                backend::run_answer(WgpuState::empty(), past, call) == Answer::Ok(seq![])
            } else {
                backend::run_answer(WgpuState::empty(), past, call) == Answer::Err(
                    proto::ProtocolError::UnknownOpcode(call.opcode),
                )
            }
        }),
{
    let h = wgpu::DestroyBufferRequest::parse(call.body)->Ok_0.buffer;
    backend::law_live_is_history::<WgpuBufState, WgpuState>(WgpuState::empty(), past, h);
    backend::law_answer_of_state(WgpuState::empty(), past, call);
}

/// What [`wgpu_op::REQUEST_DEVICE`] hands out can be used for
/// [`wgpu_op::CREATE_BUFFER`], whatever calls come between.
pub proof fn law_request_device_then_create_buffer(
    s: WgpuState,
    make: Call,
    past: Seq<Call>,
    call: Call,
)
    requires
        s.ok(),
        s.devices.free.len() > 0 || s.devices.slots.len() < 0x1_0000_0000,
        make.opcode == wgpu_op::REQUEST_DEVICE,
        call.opcode == wgpu_op::CREATE_BUFFER,
        wgpu::CreateBufferRequest::parse(call.body) matches Ok(req) && handles::same_object(
            req.device,
            s.devices.next_handle(KIND_WGPU_DEVICE),
        ),
    ensures
        s.step(make).1 == Answer::Ok(
            (wgpu::RequestDeviceResponse {
                device: s.devices.next_handle(KIND_WGPU_DEVICE),
            }).bytes(),
        ),
        backend::run_answer(s.step(make).0, past, call) == Answer::Ok(
            (wgpu::CreateBufferResponse {
                buffer: backend::run_state(
                    s.step(make).0,
                    past,
                ).buffers.next_handle(KIND_WGPU_BUFFER),
            }).bytes(),
        ),
{
    handles::law_insert_resolves(s.devices, KIND_WGPU_DEVICE, WgpuDevState);
    let h = s.devices.next_handle(KIND_WGPU_DEVICE);
    let after = s.step(make).0;
    s.law_step_keeps(make);
    backend::law_answer_of_state(after, past, call);
    assert forall|j: int| !(#[trigger] backend::takes::<WgpuDevState, WgpuState>(
        after,
        past,
        j,
        h,
    )) by {
    }
    backend::law_stays_live::<WgpuDevState, WgpuState>(after, past, h);
}

/// What [`wgpu_op::CREATE_BUFFER`] hands out can be used for
/// [`wgpu_op::DESTROY_BUFFER`], whatever calls come between that do not take it
/// away.
pub proof fn law_create_buffer_then_destroy_buffer(
    s: WgpuState,
    make: Call,
    past: Seq<Call>,
    call: Call,
)
    requires
        s.ok(),
        s.buffers.free.len() > 0 || s.buffers.slots.len() < 0x1_0000_0000,
        make.opcode == wgpu_op::CREATE_BUFFER,
        wgpu::CreateBufferRequest::parse(make.body) matches Ok(req)
            && s.devices.lookup(req.device) is Some,
        call.opcode == wgpu_op::DESTROY_BUFFER,
        wgpu::DestroyBufferRequest::parse(call.body) matches Ok(req) && handles::same_object(
            req.buffer,
            s.buffers.next_handle(KIND_WGPU_BUFFER),
        ),
        forall|j: int| 0 <= j < past.len() ==> !is_destroy_buffer(
            #[trigger] past[j],
            s.buffers.next_handle(KIND_WGPU_BUFFER),
        ),
    ensures
        s.step(make).1 == Answer::Ok(
            (wgpu::CreateBufferResponse {
                buffer: s.buffers.next_handle(KIND_WGPU_BUFFER),
            }).bytes(),
        ),
        backend::run_answer(s.step(make).0, past, call) == Answer::Ok(seq![]),
{
    let req = wgpu::CreateBufferRequest::parse(make.body)->Ok_0;
    handles::law_insert_resolves(
        s.buffers,
        KIND_WGPU_BUFFER,
        WgpuBufState { device: req.device, size: req.size, usage: req.usage },
    );
    let h = s.buffers.next_handle(KIND_WGPU_BUFFER);
    let after = s.step(make).0;
    s.law_step_keeps(make);
    backend::law_answer_of_state(after, past, call);
    assert forall|j: int| !(#[trigger] backend::takes::<WgpuBufState, WgpuState>(
        after,
        past,
        j,
        h,
    )) by {
        if 0 <= j < past.len() {
            assert(!is_destroy_buffer(past[j], h));
        }
    }
    backend::law_stays_live::<WgpuBufState, WgpuState>(after, past, h);
}

/// What a [`wgpu_op::DESTROY_BUFFER`] has taken away stays away: a call that names
/// the same object is refused afterwards, whatever calls come between.
pub proof fn law_destroy_buffer_is_final(
    s: WgpuState,
    h: proto::Handle,
    past: Seq<Call>,
    call: Call,
    again: Call,
)
    requires
        s.ok(),
        s.buffers.lookup(h) is Some,
        is_destroy_buffer(call, h),
        is_destroy_buffer(again, h),
    ensures
        s.step(call).1 == Answer::Ok(seq![]),
        backend::run_answer(s.step(call).0, past, again)
            == Answer::Err(proto::ProtocolError::UnknownOpcode(again.opcode)),
{
    s.law_step_keeps(call);
    backend::law_answer_of_state(s.step(call).0, past, again);
    backend::law_gone_stays_gone::<WgpuBufState, WgpuState>(s.step(call).0, past, h);
}

/// A [`wgpu_op::REQUEST_DEVICE`] is always answered, whatever calls came before and
/// whatever its body holds, with a handle of its kind. As long as a slot index is
/// left, the handle names a device that was not there before; nothing else changes.
pub proof fn law_request_device_answered(
    s: WgpuState,
    body: Seq<u8>,
    req_id: u32,
) -> (h: proto::Handle)
    ensures
        ({
            let call = Call { opcode: wgpu_op::REQUEST_DEVICE, req_id, body };
            let (after, answer) = s.step(call);
            &&& answer == Answer::Ok((wgpu::RequestDeviceResponse { device: h }).bytes())
            &&& h.spec_kind() == KIND_WGPU_DEVICE
            &&& s.ok() && (s.devices.free.len() > 0 || s.devices.slots.len()
                < 0x1_0000_0000) ==> {
                &&& s.devices.lookup(h) is None
                &&& after.devices.lookup(h) == Some(WgpuDevState)
                &&& forall|g: proto::Handle|
                    !handles::same_object(g, h) ==> #[trigger] after.devices.lookup(g)
                        == s.devices.lookup(g)
            }
            &&& after.buffers == s.buffers
        }),
{
    handles::law_insert_issues(s.devices, KIND_WGPU_DEVICE, WgpuDevState);
    s.devices.next_handle(KIND_WGPU_DEVICE)
}

/// A [`wgpu_op::CREATE_BUFFER`] that names a live device is always answered,
/// whatever calls came before and whatever bytes follow the request, with a handle
/// of its kind. As long as a slot index is left, the handle names a buffer that was
/// not there before and that holds what was asked for; nothing else changes.
pub proof fn law_create_buffer_answered(
    s: WgpuState,
    req: wgpu::CreateBufferRequest,
    rest: Seq<u8>,
    req_id: u32,
) -> (h: proto::Handle)
    requires
        s.devices.lookup(req.device) is Some,
    ensures
        ({
            let call = Call { opcode: wgpu_op::CREATE_BUFFER, req_id, body: req.bytes() + rest };
            let (after, answer) = s.step(call);
            &&& answer == Answer::Ok((wgpu::CreateBufferResponse { buffer: h }).bytes())
            &&& h.spec_kind() == KIND_WGPU_BUFFER
            &&& s.ok() && (s.buffers.free.len() > 0 || s.buffers.slots.len()
                < 0x1_0000_0000) ==> {
                &&& s.buffers.lookup(h) is None
                &&& after.buffers.lookup(h) == Some(
                    WgpuBufState { device: req.device, size: req.size, usage: req.usage },
                )
                &&& forall|g: proto::Handle|
                    !handles::same_object(g, h) ==> #[trigger] after.buffers.lookup(g)
                        == s.buffers.lookup(g)
            }
            &&& after.devices == s.devices
        }),
{
    req.law_round_trip(rest);
    handles::law_insert_issues(
        s.buffers,
        KIND_WGPU_BUFFER,
        WgpuBufState { device: req.device, size: req.size, usage: req.usage },
    );
    s.buffers.next_handle(KIND_WGPU_BUFFER)
}

/// A [`wgpu_op::CREATE_BUFFER`] that names no live device is refused by its opcode,
/// and changes nothing.
pub proof fn law_create_buffer_needs_device(
    s: WgpuState,
    req: wgpu::CreateBufferRequest,
    rest: Seq<u8>,
    req_id: u32,
)
    requires
        s.devices.lookup(req.device) is None,
    ensures
        s.step(Call { opcode: wgpu_op::CREATE_BUFFER, req_id, body: req.bytes() + rest }) == (
            s,
            Answer::Err(proto::ProtocolError::UnknownOpcode(wgpu_op::CREATE_BUFFER)),
        ),
{
    req.law_round_trip(rest);
}

/// A [`wgpu_op::DESTROY_BUFFER`] takes away the buffer it names, and nothing else,
/// and is acknowledged with an empty body; where there is no such buffer it is
/// refused by its opcode and nothing changes. What follows the request plays no
/// part.
pub proof fn law_destroy_buffer_takes_one(
    s: WgpuState,
    req: wgpu::DestroyBufferRequest,
    rest: Seq<u8>,
    req_id: u32,
)
    ensures
        ({
            let call = Call { opcode: wgpu_op::DESTROY_BUFFER, req_id, body: req.bytes() + rest };
            let (after, answer) = s.step(call);
            &&& s.buffers.lookup(req.buffer) is Some ==> {
                &&& answer == Answer::Ok(seq![])
                &&& forall|g: proto::Handle|
                    handles::same_object(g, req.buffer) ==> #[trigger] after.buffers.lookup(
                        g,
                    ) is None
            }
            &&& s.buffers.lookup(req.buffer) is None ==> {
                &&& answer == Answer::Err(
                    proto::ProtocolError::UnknownOpcode(wgpu_op::DESTROY_BUFFER),
                )
                &&& after == s
            }
            &&& forall|g: proto::Handle|
                !handles::same_object(g, req.buffer) ==> #[trigger] after.buffers.lookup(g)
                    == s.buffers.lookup(g)
            &&& after.devices == s.devices
        }),
{
    req.law_round_trip(rest);
    handles::law_remove_takes_one(s.buffers, req.buffer);
}

/// A call whose body is too short for its request is refused as an unexpected end,
/// and changes nothing.
pub proof fn law_short_bodies_refused(s: WgpuState, call: Call)
    requires
        ({
            ||| call.opcode == wgpu_op::CREATE_BUFFER && call.body.len() < 20
            ||| call.opcode == wgpu_op::DESTROY_BUFFER && call.body.len() < 8
        }),
    ensures
        s.step(call) == (s, Answer::Err(proto::ProtocolError::UnexpectedEof)),
{
}

/// Only calls of the backend's own namespace are answered. Every other opcode, of
/// the namespace or not, is refused by that opcode, whatever its body holds, and
/// changes nothing.
pub proof fn law_other_calls_refused(s: WgpuState, call: Call)
    ensures
        s.step(call).1 is Ok ==> call.opcode / 0x100_0000 == proto::ApiId::WebGpu.byte(),
        ({
            &&& call.opcode != wgpu_op::REQUEST_DEVICE
            &&& call.opcode != wgpu_op::CREATE_BUFFER
            &&& call.opcode != wgpu_op::DESTROY_BUFFER
        }) ==> s.step(call) == (
            s,
            Answer::Err(proto::ProtocolError::UnknownOpcode(call.opcode)),
        ),
{
}

/// A new backend serves the namespace of its API, and holds nothing that a handle
/// resolves to.
pub proof fn law_new_backend(
    backend: WebGpuBackend,
    reader: &WebGpuBackend,
    api: proto::ApiId,
    h: proto::Handle,
)
    requires
        call_ensures(WebGpuBackend::new, (), backend),
        call_ensures(<WebGpuBackend as Backend>::api, (reader,), api),
    ensures
        api == proto::ApiId::WebGpu,
        api.byte() == 8,
        backend.inv(),
        backend@.devices.lookup(h) is None,
        backend@.buffers.lookup(h) is None,
{
}

} // verus!
