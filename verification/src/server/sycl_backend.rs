//! SYCL backend dispatch.
//!
//! The [`Session`](crate::server::Session) routes any SYCL-namespace opcode to this
//! backend. Like the Vulkan, OpenGL, CUDA, HIP, OpenCL, and Level Zero
//! backends, the SYCL backend is a pure-Rust **stub**: it tracks object
//! lifetimes in generational handle tables but performs no real driver work. No
//! SYCL runtime, GPU, or FFI dependency is involved.
use vstd::prelude::*;

use super::backend;
use super::backend::{Answer, Backend, Call, Keeps, Machine};
use crate::handles;
use crate::handles::{HandleTable, TableOp, TableState};
use crate::protocol as proto;
use crate::protocol::sycl;
use crate::protocol::sycl_op;
use crate::protocol::wire::Wire;

verus! {

broadcast use crate::protocol::bytes::lemma_append_to_empty;

/// Server object kind for a SYCL queue handle.
pub const KIND_SYCL_QUEUE: u8 = 90;

/// Server object kind for a SYCL device-pointer handle.
pub const KIND_SYCL_DEVICE_PTR: u8 = 91;

/// Server-side state tracked for one created SYCL queue.
#[derive(Debug)]
pub struct SyclQueueState {
    /// Marks the queue as live; reserved for future per-queue state.
    pub created: bool,
}

/// Server-side state tracked for one SYCL device allocation.
#[derive(Debug)]
pub struct SyclPtrState {
    /// The queue handle this allocation was made on. Recorded
    /// for lifetime and ownership checks.
    pub queue: proto::Handle,
    /// Size of the allocation in bytes.
    pub size: u64,
}

/// Pure-Rust SYCL backend stub.
///
/// Owns generational handle tables for the SYCL objects it tracks. It answers
/// [`sycl_op::QUEUE_CREATE`](proto::sycl_op::QUEUE_CREATE) by minting a queue
/// handle, [`sycl_op::MALLOC_DEVICE`](proto::sycl_op::MALLOC_DEVICE) by minting
/// a device-pointer handle parented to a known queue, and
/// [`sycl_op::FREE`](proto::sycl_op::FREE) by removing a known device-pointer
/// handle and acknowledging with an empty body. The real driver bridge lands
/// later; every other SYCL call is reported as not-yet-implemented
/// via [`ProtocolError::UnknownOpcode`](proto::ProtocolError::UnknownOpcode).
pub struct SyclBackend {
    /// The queues.
    pub queues: HandleTable<SyclQueueState>,
    /// The device allocations.
    pub ptrs: HandleTable<SyclPtrState>,
}

/// What the SYCL backend holds.
pub ghost struct SyclState {
    /// The queues.
    pub queues: TableState<SyclQueueState>,
    /// The device allocations.
    pub ptrs: TableState<SyclPtrState>,
}

impl SyclState {
    /// The state without objects.
    pub open spec fn empty() -> Self {
        SyclState { queues: TableState::empty(), ptrs: TableState::empty() }
    }
}

impl Machine for SyclState {
    open spec fn ok(self) -> bool {
        &&& self.queues.inv()
        &&& self.ptrs.inv()
    }

    open spec fn step(self, call: Call) -> (Self, Answer) {
        let unknown: (Self, Answer) = (self, Err(proto::ProtocolError::UnknownOpcode(call.opcode)));
        if call.opcode == sycl_op::QUEUE_CREATE {
            (
                SyclState {
                    queues: self.queues.inserted(SyclQueueState { created: true }),
                    ..self
                },
                Ok(
                    (sycl::QueueCreateResponse {
                        queue: self.queues.next_handle(KIND_SYCL_QUEUE),
                    }).bytes(),
                ),
            )
        } else if call.opcode == sycl_op::MALLOC_DEVICE {
            match sycl::MallocDeviceRequest::parse(call.body) {
                Err(e) => (self, Err(e)),
                Ok(req) => if self.queues.lookup(req.queue) is Some {
                    (
                        SyclState {
                            ptrs: self.ptrs.inserted(
                                SyclPtrState { queue: req.queue, size: req.size },
                            ),
                            ..self
                        },
                        Ok(
                            (sycl::MallocDeviceResponse {
                                ptr: self.ptrs.next_handle(KIND_SYCL_DEVICE_PTR),
                            }).bytes(),
                        ),
                    )
                } else {
                    unknown
                },
            }
        } else if call.opcode == sycl_op::FREE {
            match sycl::FreeRequest::parse(call.body) {
                Err(e) => (self, Err(e)),
                Ok(req) => if self.ptrs.lookup(req.ptr) is Some {
                    (
                        SyclState { ptrs: self.ptrs.removed(req.ptr), ..self },
                        Ok(seq![]),
                    )
                } else {
                    unknown
                },
            }
        } else {
            unknown
        }
    }

    proof fn law_step_keeps(self, call: Call) {
        crate::handles::law_table_keeps(self.queues);
        crate::handles::law_table_keeps(self.ptrs);
    }

    proof fn law_refusal_changes_nothing(self, call: Call) {
    }

    proof fn law_req_id_plays_no_part(self, call: Call, req_id: u32) {
    }
}

impl View for SyclBackend {
    type V = SyclState;

    open spec fn view(&self) -> SyclState {
        SyclState { queues: self.queues@, ptrs: self.ptrs@ }
    }
}

impl SyclBackend {
    /// Create a new SYCL backend stub with empty object tables.
    #[must_use]
    pub fn new() -> (backend: Self)
        ensures
            backend.inv(),
            backend@ == SyclState::empty(),
    {
        Self { queues: HandleTable::new(), ptrs: HandleTable::new() }
    }
}

impl Default for SyclBackend {
    fn default() -> (backend: Self)
        ensures
            backend.inv(),
            backend@ == SyclState::empty(),
    {
        Self::new()
    }
}

impl Backend for SyclBackend {
    open spec fn inv(&self) -> bool {
        &&& self.queues.wf()
        &&& self.ptrs.wf()
    }

    open spec fn spec_api(&self) -> proto::ApiId {
        proto::ApiId::Sycl
    }

    open spec fn answer(&self, past: Seq<Call>, call: Call) -> Answer {
        super::backend::run_answer(self@, past, call)
    }

    fn api(&self) -> (api: proto::ApiId) {
        proto::ApiId::Sycl
    }

    fn handle(
        &mut self,
        opcode: u32,
        req_id: u32,
        body: &[u8],
    ) -> (r: Result<Vec<u8>, proto::ProtocolError>)
        ensures
            (final(self)@, super::backend::answer_of(r)) == old(self)@.step(
                Call { opcode, req_id, body: body@ },
            ),
    {
        proof {
            super::backend::law_step_then_answer(self@, Call { opcode, req_id, body: body@ });
        }
        // Reject anything outside the SYCL namespace outright.
        if proto::opcode_api(opcode) != proto::ApiId::Sycl.to_byte() {
            return Err(proto::ProtocolError::UnknownOpcode(opcode));
        }
        match opcode {
            sycl_op::QUEUE_CREATE => {
                // The request body is empty, so there is nothing to decode.
                let queue = self.queues.insert(KIND_SYCL_QUEUE, SyclQueueState { created: true });
                let mut out: Vec<u8> = Vec::new();
                (sycl::QueueCreateResponse { queue }).encode(&mut out);
                Ok(out)
            },
            sycl_op::MALLOC_DEVICE => {
                let req = sycl::MallocDeviceRequest::decode(body)?;
                // The queue must have been created on this backend.
                if self.queues.get(req.queue).is_none() {
                    return Err(proto::ProtocolError::UnknownOpcode(opcode));
                }
                let ptr = self.ptrs.insert(
                    KIND_SYCL_DEVICE_PTR,
                    SyclPtrState { queue: req.queue, size: req.size },
                );
                let mut out: Vec<u8> = Vec::new();
                (sycl::MallocDeviceResponse { ptr }).encode(&mut out);
                Ok(out)
            },
            sycl_op::FREE => {
                let req = sycl::FreeRequest::decode(body)?;
                // The allocation must have been created on this backend and
                // still be live; removing it both validates and frees it.
                if self.ptrs.remove(req.ptr).is_none() {
                    return Err(proto::ProtocolError::UnknownOpcode(opcode));
                }
                // Acknowledge with an empty body.
                Ok(Vec::new())
            },
            // Everything else in the SYCL namespace is not implemented yet.
            other => Err(proto::ProtocolError::UnknownOpcode(other)),
        }
    }
}

impl Keeps<SyclQueueState> for SyclState {
    open spec fn table(self) -> TableState<SyclQueueState> {
        self.queues
    }

    open spec fn op(self, call: Call) -> TableOp<SyclQueueState> {
        if call.opcode == sycl_op::QUEUE_CREATE {
            TableOp::Insert(SyclQueueState { created: true })
        } else {
            TableOp::Read
        }
    }

    proof fn law_call_is_op(self, call: Call) {
    }
}

impl Keeps<SyclPtrState> for SyclState {
    open spec fn table(self) -> TableState<SyclPtrState> {
        self.ptrs
    }

    open spec fn op(self, call: Call) -> TableOp<SyclPtrState> {
        if call.opcode == sycl_op::MALLOC_DEVICE {
            match sycl::MallocDeviceRequest::parse(call.body) {
                Ok(req) => if self.queues.lookup(req.queue) is Some {
                    TableOp::Insert(SyclPtrState { queue: req.queue, size: req.size })
                } else {
                    TableOp::Read
                },
                Err(_) => TableOp::Read,
            }
        } else if call.opcode == sycl_op::FREE {
            match sycl::FreeRequest::parse(call.body) {
                Ok(req) => TableOp::Remove(req.ptr),
                Err(_) => TableOp::Read,
            }
        } else {
            TableOp::Read
        }
    }

    proof fn law_call_is_op(self, call: Call) {
    }
}

/// Whether `call` is a [`sycl_op::FREE`] that names the object of `h`.
pub open spec fn is_free(call: Call, h: proto::Handle) -> bool {
    &&& call.opcode == sycl_op::FREE
    &&& sycl::FreeRequest::parse(call.body) matches Ok(req)
    &&& handles::same_object(req.ptr, h)
}

/// The history of the queues: a call has made the object of a handle if and only if
/// it was a [`sycl_op::QUEUE_CREATE`] answered with a handle of the same slot and
/// generation, and no call takes one away.
pub proof fn law_queues_history(past: Seq<Call>, i: int, h: proto::Handle)
    ensures
        backend::makes::<SyclQueueState, SyclState>(SyclState::empty(), past, i, h) <==> {
            &&& 0 <= i < past.len()
            &&& past[i].opcode == sycl_op::QUEUE_CREATE
            &&& exists|g: proto::Handle| #[trigger]
                handles::same_object(g, h) && backend::run_answer(
                    SyclState::empty(),
                    past.take(i),
                    past[i],
                ) == Answer::Ok((sycl::QueueCreateResponse { queue: g }).bytes())
        },
        !backend::takes::<SyclQueueState, SyclState>(SyclState::empty(), past, i, h),
{
    if 0 <= i < past.len() {
        let s = backend::run_state(SyclState::empty(), past.take(i));
        let made = s.queues.next_handle(KIND_SYCL_QUEUE);
        backend::law_answer_of_state(SyclState::empty(), past.take(i), past[i]);
        handles::law_next_handle_kinds(s.queues, 0, KIND_SYCL_QUEUE);
        let of_made = sycl::QueueCreateResponse { queue: made };
        of_made.law_whole();
        if backend::makes::<SyclQueueState, SyclState>(SyclState::empty(), past, i, h) {
            assert(handles::same_object(made, h));
        }
        if exists|g: proto::Handle| #[trigger]
            handles::same_object(g, h) && backend::run_answer(
                SyclState::empty(),
                past.take(i),
                past[i],
            ) == Answer::Ok((sycl::QueueCreateResponse { queue: g }).bytes()) {
            let g = choose|g: proto::Handle| #[trigger]
                handles::same_object(g, h) && backend::run_answer(
                    SyclState::empty(),
                    past.take(i),
                    past[i],
                ) == Answer::Ok((sycl::QueueCreateResponse { queue: g }).bytes());
            let of_g = sycl::QueueCreateResponse { queue: g };
            of_g.law_whole();
        }
    }
}

/// No two [`sycl_op::QUEUE_CREATE`] calls are answered with handles of the same
/// slot and generation, and each handle is of its kind.
pub proof fn law_queue_create_issues_once(
    past: Seq<Call>,
    i: int,
    j: int,
    g: proto::Handle,
    h: proto::Handle,
)
    requires
        0 <= i < j < past.len(),
        past[i].opcode == sycl_op::QUEUE_CREATE,
        past[j].opcode == sycl_op::QUEUE_CREATE,
        backend::run_answer(SyclState::empty(), past.take(i), past[i]) == Answer::Ok(
            (sycl::QueueCreateResponse { queue: g }).bytes(),
        ),
        backend::run_answer(SyclState::empty(), past.take(j), past[j]) == Answer::Ok(
            (sycl::QueueCreateResponse { queue: h }).bytes(),
        ),
        backend::run_state(SyclState::empty(), past).queues.slots.len() <= 0x1_0000_0000,
    ensures
        !handles::same_object(g, h),
        g.spec_kind() == KIND_SYCL_QUEUE,
        h.spec_kind() == KIND_SYCL_QUEUE,
{
    let empty = SyclState::empty();
    let s = backend::run_state(empty, past.take(i));
    let t = backend::run_state(empty, past.take(j));
    backend::law_answer_of_state(empty, past.take(i), past[i]);
    backend::law_answer_of_state(empty, past.take(j), past[j]);
    let of_g = sycl::QueueCreateResponse { queue: g };
    of_g.law_whole();
    let of_h = sycl::QueueCreateResponse { queue: h };
    of_h.law_whole();
    let made_i = s.queues.next_handle(KIND_SYCL_QUEUE);
    let of_made_i = sycl::QueueCreateResponse { queue: made_i };
    of_made_i.law_whole();
    let made_j = t.queues.next_handle(KIND_SYCL_QUEUE);
    let of_made_j = sycl::QueueCreateResponse { queue: made_j };
    of_made_j.law_whole();
    backend::law_made_once::<SyclQueueState, SyclState>(empty, past, i, j, KIND_SYCL_QUEUE);
}

/// The history of the ptrs: a call has made the object of a handle if and only if
/// it was a [`sycl_op::MALLOC_DEVICE`] answered with a handle of the same slot and
/// generation, and takes it away if and only if it is a [`sycl_op::FREE`] that
/// names it.
pub proof fn law_ptrs_history(past: Seq<Call>, i: int, h: proto::Handle)
    ensures
        backend::makes::<SyclPtrState, SyclState>(SyclState::empty(), past, i, h) <==> {
            &&& 0 <= i < past.len()
            &&& past[i].opcode == sycl_op::MALLOC_DEVICE
            &&& exists|g: proto::Handle| #[trigger]
                handles::same_object(g, h) && backend::run_answer(
                    SyclState::empty(),
                    past.take(i),
                    past[i],
                ) == Answer::Ok((sycl::MallocDeviceResponse { ptr: g }).bytes())
        },
        backend::takes::<SyclPtrState, SyclState>(SyclState::empty(), past, i, h)
            <==> 0 <= i < past.len() && is_free(past[i], h),
{
    if 0 <= i < past.len() {
        let s = backend::run_state(SyclState::empty(), past.take(i));
        let made = s.ptrs.next_handle(KIND_SYCL_DEVICE_PTR);
        backend::law_answer_of_state(SyclState::empty(), past.take(i), past[i]);
        handles::law_next_handle_kinds(s.ptrs, 0, KIND_SYCL_DEVICE_PTR);
        let of_made = sycl::MallocDeviceResponse { ptr: made };
        of_made.law_whole();
        if backend::makes::<SyclPtrState, SyclState>(SyclState::empty(), past, i, h) {
            assert(handles::same_object(made, h));
        }
        if exists|g: proto::Handle| #[trigger]
            handles::same_object(g, h) && backend::run_answer(
                SyclState::empty(),
                past.take(i),
                past[i],
            ) == Answer::Ok((sycl::MallocDeviceResponse { ptr: g }).bytes()) {
            let g = choose|g: proto::Handle| #[trigger]
                handles::same_object(g, h) && backend::run_answer(
                    SyclState::empty(),
                    past.take(i),
                    past[i],
                ) == Answer::Ok((sycl::MallocDeviceResponse { ptr: g }).bytes());
            let of_g = sycl::MallocDeviceResponse { ptr: g };
            of_g.law_whole();
        }
    }
}

/// No two [`sycl_op::MALLOC_DEVICE`] calls are answered with handles of the same
/// slot and generation, and each handle is of its kind.
pub proof fn law_malloc_device_issues_once(
    past: Seq<Call>,
    i: int,
    j: int,
    g: proto::Handle,
    h: proto::Handle,
)
    requires
        0 <= i < j < past.len(),
        past[i].opcode == sycl_op::MALLOC_DEVICE,
        past[j].opcode == sycl_op::MALLOC_DEVICE,
        backend::run_answer(SyclState::empty(), past.take(i), past[i]) == Answer::Ok(
            (sycl::MallocDeviceResponse { ptr: g }).bytes(),
        ),
        backend::run_answer(SyclState::empty(), past.take(j), past[j]) == Answer::Ok(
            (sycl::MallocDeviceResponse { ptr: h }).bytes(),
        ),
        backend::run_state(SyclState::empty(), past).ptrs.slots.len() <= 0x1_0000_0000,
    ensures
        !handles::same_object(g, h),
        g.spec_kind() == KIND_SYCL_DEVICE_PTR,
        h.spec_kind() == KIND_SYCL_DEVICE_PTR,
{
    let empty = SyclState::empty();
    let s = backend::run_state(empty, past.take(i));
    let t = backend::run_state(empty, past.take(j));
    backend::law_answer_of_state(empty, past.take(i), past[i]);
    backend::law_answer_of_state(empty, past.take(j), past[j]);
    let of_g = sycl::MallocDeviceResponse { ptr: g };
    of_g.law_whole();
    let of_h = sycl::MallocDeviceResponse { ptr: h };
    of_h.law_whole();
    let made_i = s.ptrs.next_handle(KIND_SYCL_DEVICE_PTR);
    let of_made_i = sycl::MallocDeviceResponse { ptr: made_i };
    of_made_i.law_whole();
    let made_j = t.ptrs.next_handle(KIND_SYCL_DEVICE_PTR);
    let of_made_j = sycl::MallocDeviceResponse { ptr: made_j };
    of_made_j.law_whole();
    backend::law_made_once::<SyclPtrState, SyclState>(empty, past, i, j, KIND_SYCL_DEVICE_PTR);
}

/// A [`sycl_op::MALLOC_DEVICE`] is answered if and only if the queue it names was
/// made by an earlier call; else it is refused.
pub proof fn law_malloc_device_iff_live(past: Seq<Call>, call: Call)
    requires
        call.opcode == sycl_op::MALLOC_DEVICE,
        sycl::MallocDeviceRequest::parse(call.body) is Ok,
        backend::run_state(SyclState::empty(), past).queues.slots.len() <= 0x1_0000_0000,
    ensures
        ({
            let h = sycl::MallocDeviceRequest::parse(call.body)->Ok_0.queue;
            if backend::is_live::<SyclQueueState, SyclState>(SyclState::empty(), past, h) {
                backend::run_answer(SyclState::empty(), past, call) == Answer::Ok(
                    (sycl::MallocDeviceResponse {
                        ptr: backend::run_state(
                            SyclState::empty(),
                            past,
                        ).ptrs.next_handle(KIND_SYCL_DEVICE_PTR),
                    }).bytes(),
                )
            } else {
                backend::run_answer(SyclState::empty(), past, call) == Answer::Err(
                    proto::ProtocolError::UnknownOpcode(call.opcode),
                )
            }
        }),
{
    let h = sycl::MallocDeviceRequest::parse(call.body)->Ok_0.queue;
    backend::law_live_is_history::<SyclQueueState, SyclState>(SyclState::empty(), past, h);
    backend::law_answer_of_state(SyclState::empty(), past, call);
}

/// A [`sycl_op::FREE`] is answered if and only if the ptr it names was made by an
/// earlier call and not taken away since; else it is refused.
pub proof fn law_free_iff_live(past: Seq<Call>, call: Call)
    requires
        call.opcode == sycl_op::FREE,
        sycl::FreeRequest::parse(call.body) is Ok,
        backend::run_state(SyclState::empty(), past).ptrs.slots.len() <= 0x1_0000_0000,
    ensures
        ({
            let h = sycl::FreeRequest::parse(call.body)->Ok_0.ptr;
            if backend::is_live::<SyclPtrState, SyclState>(SyclState::empty(), past, h) {
                backend::run_answer(SyclState::empty(), past, call) == Answer::Ok(seq![])
            } else {
                backend::run_answer(SyclState::empty(), past, call) == Answer::Err(
                    proto::ProtocolError::UnknownOpcode(call.opcode),
                )
            }
        }),
{
    let h = sycl::FreeRequest::parse(call.body)->Ok_0.ptr;
    backend::law_live_is_history::<SyclPtrState, SyclState>(SyclState::empty(), past, h);
    backend::law_answer_of_state(SyclState::empty(), past, call);
}

/// What [`sycl_op::QUEUE_CREATE`] hands out can be used for
/// [`sycl_op::MALLOC_DEVICE`], whatever calls come between.
pub proof fn law_queue_create_then_malloc_device(
    s: SyclState,
    make: Call,
    past: Seq<Call>,
    call: Call,
)
    requires
        s.ok(),
        s.queues.free.len() > 0 || s.queues.slots.len() < 0x1_0000_0000,
        make.opcode == sycl_op::QUEUE_CREATE,
        call.opcode == sycl_op::MALLOC_DEVICE,
        sycl::MallocDeviceRequest::parse(call.body) matches Ok(req) && handles::same_object(
            req.queue,
            s.queues.next_handle(KIND_SYCL_QUEUE),
        ),
    ensures
        s.step(make).1 == Answer::Ok(
            (sycl::QueueCreateResponse { queue: s.queues.next_handle(KIND_SYCL_QUEUE) }).bytes(),
        ),
        backend::run_answer(s.step(make).0, past, call) == Answer::Ok(
            (sycl::MallocDeviceResponse {
                ptr: backend::run_state(
                    s.step(make).0,
                    past,
                ).ptrs.next_handle(KIND_SYCL_DEVICE_PTR),
            }).bytes(),
        ),
{
    handles::law_insert_resolves(
        s.queues,
        KIND_SYCL_QUEUE,
        SyclQueueState { created: true },
    );
    let h = s.queues.next_handle(KIND_SYCL_QUEUE);
    let after = s.step(make).0;
    s.law_step_keeps(make);
    backend::law_answer_of_state(after, past, call);
    assert forall|j: int| !(#[trigger] backend::takes::<SyclQueueState, SyclState>(
        after,
        past,
        j,
        h,
    )) by {
    }
    backend::law_stays_live::<SyclQueueState, SyclState>(after, past, h);
}

/// What [`sycl_op::MALLOC_DEVICE`] hands out can be used for [`sycl_op::FREE`],
/// whatever calls come between that do not take it away.
pub proof fn law_malloc_device_then_free(
    s: SyclState,
    make: Call,
    past: Seq<Call>,
    call: Call,
)
    requires
        s.ok(),
        s.ptrs.free.len() > 0 || s.ptrs.slots.len() < 0x1_0000_0000,
        make.opcode == sycl_op::MALLOC_DEVICE,
        sycl::MallocDeviceRequest::parse(make.body) matches Ok(req)
            && s.queues.lookup(req.queue) is Some,
        call.opcode == sycl_op::FREE,
        sycl::FreeRequest::parse(call.body) matches Ok(req) && handles::same_object(
            req.ptr,
            s.ptrs.next_handle(KIND_SYCL_DEVICE_PTR),
        ),
        forall|j: int| 0 <= j < past.len() ==> !is_free(
            #[trigger] past[j],
            s.ptrs.next_handle(KIND_SYCL_DEVICE_PTR),
        ),
    ensures
        s.step(make).1 == Answer::Ok(
            (sycl::MallocDeviceResponse { ptr: s.ptrs.next_handle(KIND_SYCL_DEVICE_PTR) }).bytes(),
        ),
        backend::run_answer(s.step(make).0, past, call) == Answer::Ok(seq![]),
{
    let req = sycl::MallocDeviceRequest::parse(make.body)->Ok_0;
    handles::law_insert_resolves(
        s.ptrs,
        KIND_SYCL_DEVICE_PTR,
        SyclPtrState { queue: req.queue, size: req.size },
    );
    let h = s.ptrs.next_handle(KIND_SYCL_DEVICE_PTR);
    let after = s.step(make).0;
    s.law_step_keeps(make);
    backend::law_answer_of_state(after, past, call);
    assert forall|j: int| !(#[trigger] backend::takes::<SyclPtrState, SyclState>(
        after,
        past,
        j,
        h,
    )) by {
        if 0 <= j < past.len() {
            assert(!is_free(past[j], h));
        }
    }
    backend::law_stays_live::<SyclPtrState, SyclState>(after, past, h);
}

/// What a [`sycl_op::FREE`] has taken away stays away: a call that names the same
/// object is refused afterwards, whatever calls come between.
pub proof fn law_free_is_final(
    s: SyclState,
    h: proto::Handle,
    past: Seq<Call>,
    call: Call,
    again: Call,
)
    requires
        s.ok(),
        s.ptrs.lookup(h) is Some,
        is_free(call, h),
        is_free(again, h),
    ensures
        s.step(call).1 == Answer::Ok(seq![]),
        backend::run_answer(s.step(call).0, past, again)
            == Answer::Err(proto::ProtocolError::UnknownOpcode(again.opcode)),
{
    s.law_step_keeps(call);
    backend::law_answer_of_state(s.step(call).0, past, again);
    backend::law_gone_stays_gone::<SyclPtrState, SyclState>(s.step(call).0, past, h);
}

/// A [`sycl_op::QUEUE_CREATE`] is always answered, whatever calls came before and
/// whatever its body holds, with a handle of its kind. As long as a slot index is
/// left, the handle names a queue that was not there before; nothing else changes.
pub proof fn law_queue_create_answered(
    s: SyclState,
    body: Seq<u8>,
    req_id: u32,
) -> (h: proto::Handle)
    ensures
        ({
            let call = Call { opcode: sycl_op::QUEUE_CREATE, req_id, body };
            let (after, answer) = s.step(call);
            &&& answer == Answer::Ok((sycl::QueueCreateResponse { queue: h }).bytes())
            &&& h.spec_kind() == KIND_SYCL_QUEUE
            &&& s.ok() && (s.queues.free.len() > 0 || s.queues.slots.len() < 0x1_0000_0000) ==> {
                &&& s.queues.lookup(h) is None
                &&& after.queues.lookup(h) == Some(SyclQueueState { created: true })
                &&& forall|g: proto::Handle|
                    !handles::same_object(g, h) ==> #[trigger] after.queues.lookup(g)
                        == s.queues.lookup(g)
            }
            &&& after.ptrs == s.ptrs
        }),
{
    handles::law_insert_issues(s.queues, KIND_SYCL_QUEUE, SyclQueueState { created: true });
    s.queues.next_handle(KIND_SYCL_QUEUE)
}

/// A [`sycl_op::MALLOC_DEVICE`] that names a live queue is always answered,
/// whatever calls came before and whatever bytes follow the request, with a handle
/// of its kind. As long as a slot index is left, the handle names a ptr that was
/// not there before and that holds what was asked for; nothing else changes.
pub proof fn law_malloc_device_answered(
    s: SyclState,
    req: sycl::MallocDeviceRequest,
    rest: Seq<u8>,
    req_id: u32,
) -> (h: proto::Handle)
    requires
        s.queues.lookup(req.queue) is Some,
    ensures
        ({
            let call = Call { opcode: sycl_op::MALLOC_DEVICE, req_id, body: req.bytes() + rest };
            let (after, answer) = s.step(call);
            &&& answer == Answer::Ok((sycl::MallocDeviceResponse { ptr: h }).bytes())
            &&& h.spec_kind() == KIND_SYCL_DEVICE_PTR
            &&& s.ok() && (s.ptrs.free.len() > 0 || s.ptrs.slots.len() < 0x1_0000_0000) ==> {
                &&& s.ptrs.lookup(h) is None
                &&& after.ptrs.lookup(h) == Some(
                    SyclPtrState { queue: req.queue, size: req.size },
                )
                &&& forall|g: proto::Handle|
                    !handles::same_object(g, h) ==> #[trigger] after.ptrs.lookup(g)
                        == s.ptrs.lookup(g)
            }
            &&& after.queues == s.queues
        }),
{
    req.law_round_trip(rest);
    handles::law_insert_issues(
        s.ptrs,
        KIND_SYCL_DEVICE_PTR,
        SyclPtrState { queue: req.queue, size: req.size },
    );
    s.ptrs.next_handle(KIND_SYCL_DEVICE_PTR)
}

/// A [`sycl_op::MALLOC_DEVICE`] that names no live queue is refused by its opcode,
/// and changes nothing.
pub proof fn law_malloc_device_needs_queue(
    s: SyclState,
    req: sycl::MallocDeviceRequest,
    rest: Seq<u8>,
    req_id: u32,
)
    requires
        s.queues.lookup(req.queue) is None,
    ensures
        s.step(Call { opcode: sycl_op::MALLOC_DEVICE, req_id, body: req.bytes() + rest }) == (
            s,
            Answer::Err(proto::ProtocolError::UnknownOpcode(sycl_op::MALLOC_DEVICE)),
        ),
{
    req.law_round_trip(rest);
}

/// A [`sycl_op::FREE`] takes away the ptr it names, and nothing else, and is
/// acknowledged with an empty body; where there is no such ptr it is refused by its
/// opcode and nothing changes. What follows the request plays no part.
pub proof fn law_free_takes_one(
    s: SyclState,
    req: sycl::FreeRequest,
    rest: Seq<u8>,
    req_id: u32,
)
    ensures
        ({
            let call = Call { opcode: sycl_op::FREE, req_id, body: req.bytes() + rest };
            let (after, answer) = s.step(call);
            &&& s.ptrs.lookup(req.ptr) is Some ==> {
                &&& answer == Answer::Ok(seq![])
                &&& forall|g: proto::Handle|
                    handles::same_object(g, req.ptr) ==> #[trigger] after.ptrs.lookup(
                        g,
                    ) is None
            }
            &&& s.ptrs.lookup(req.ptr) is None ==> {
                &&& answer == Answer::Err(
                    proto::ProtocolError::UnknownOpcode(sycl_op::FREE),
                )
                &&& after == s
            }
            &&& forall|g: proto::Handle|
                !handles::same_object(g, req.ptr) ==> #[trigger] after.ptrs.lookup(g)
                    == s.ptrs.lookup(g)
            &&& after.queues == s.queues
        }),
{
    req.law_round_trip(rest);
    handles::law_remove_takes_one(s.ptrs, req.ptr);
}

/// A call whose body is too short for its request is refused as an unexpected end,
/// and changes nothing.
pub proof fn law_short_bodies_refused(s: SyclState, call: Call)
    requires
        ({
            ||| call.opcode == sycl_op::MALLOC_DEVICE && call.body.len() < 16
            ||| call.opcode == sycl_op::FREE && call.body.len() < 8
        }),
    ensures
        s.step(call) == (s, Answer::Err(proto::ProtocolError::UnexpectedEof)),
{
}

/// Only calls of the backend's own namespace are answered. Every other opcode, of
/// the namespace or not, is refused by that opcode, whatever its body holds, and
/// changes nothing.
pub proof fn law_other_calls_refused(s: SyclState, call: Call)
    ensures
        s.step(call).1 is Ok ==> call.opcode / 0x100_0000 == proto::ApiId::Sycl.byte(),
        ({
            &&& call.opcode != sycl_op::QUEUE_CREATE
            &&& call.opcode != sycl_op::MALLOC_DEVICE
            &&& call.opcode != sycl_op::FREE
        }) ==> s.step(call) == (
            s,
            Answer::Err(proto::ProtocolError::UnknownOpcode(call.opcode)),
        ),
{
}

/// A new backend serves the namespace of its API, and holds nothing that a handle
/// resolves to.
pub proof fn law_new_backend(
    backend: SyclBackend,
    reader: &SyclBackend,
    api: proto::ApiId,
    h: proto::Handle,
)
    requires
        call_ensures(SyclBackend::new, (), backend),
        call_ensures(<SyclBackend as Backend>::api, (reader,), api),
    ensures
        api == proto::ApiId::Sycl,
        api.byte() == 10,
        backend.inv(),
        backend@.queues.lookup(h) is None,
        backend@.ptrs.lookup(h) is None,
{
}

} // verus!
