//! Level Zero backend dispatch.
//!
//! The [`Session`](crate::server::Session) routes any Level Zero-namespace opcode to
//! this backend. Like the Vulkan, OpenGL, CUDA, HIP, and OpenCL backends, the
//! Level Zero backend is a pure-Rust **stub**: it tracks object lifetimes in
//! generational handle tables but performs no real driver work. No Level Zero
//! SDK, GPU, or FFI dependency is involved.
use vstd::prelude::*;

use super::backend;
use super::backend::{Answer, Backend, Call, Keeps, Machine};
use crate::handles;
use crate::handles::{HandleTable, TableOp, TableState};
use crate::protocol as proto;
use crate::protocol::l0;
use crate::protocol::l0_op;
use crate::protocol::wire::Wire;

verus! {

broadcast use crate::protocol::bytes::lemma_append_to_empty;

/// Server object kind for a Level Zero context handle.
pub const KIND_L0_CONTEXT: u8 = 50;

/// Server object kind for a Level Zero device-memory handle.
pub const KIND_L0_DEVICE_MEM: u8 = 51;

/// Server-side state tracked for one created Level Zero context.
#[derive(Debug)]
pub struct L0CtxState {
    /// Marks the context as live; reserved for future per-context state.
    pub created: bool,
}

/// Server-side state tracked for one Level Zero device-memory allocation.
#[derive(Debug)]
pub struct L0MemState {
    /// The context handle this allocation was made in. Recorded
    /// for lifetime and ownership checks.
    pub context: proto::Handle,
    /// Size of the allocation in bytes.
    pub size: u64,
}

/// Pure-Rust Level Zero backend stub.
///
/// Owns generational handle tables for the Level Zero objects it tracks. It
/// answers [`l0_op::CONTEXT_CREATE`](proto::l0_op::CONTEXT_CREATE) by minting a
/// context handle, [`l0_op::MEM_ALLOC_DEVICE`](proto::l0_op::MEM_ALLOC_DEVICE)
/// by minting a device-memory handle parented to a known context, and
/// [`l0_op::MEM_FREE`](proto::l0_op::MEM_FREE) by removing a known device-memory
/// handle and acknowledging with an empty body. The real driver bridge lands
/// later; every other Level Zero call is reported as not-yet-
/// implemented via [`ProtocolError::UnknownOpcode`](proto::ProtocolError::UnknownOpcode).
pub struct L0Backend {
    /// The contexts.
    pub contexts: HandleTable<L0CtxState>,
    /// The device-memory allocations.
    pub mems: HandleTable<L0MemState>,
}

/// What the Level Zero backend holds.
pub ghost struct L0State {
    /// The contexts.
    pub contexts: TableState<L0CtxState>,
    /// The device-memory allocations.
    pub mems: TableState<L0MemState>,
}

impl L0State {
    /// The state without objects.
    pub open spec fn empty() -> Self {
        L0State { contexts: TableState::empty(), mems: TableState::empty() }
    }
}

impl Machine for L0State {
    open spec fn ok(self) -> bool {
        &&& self.contexts.inv()
        &&& self.mems.inv()
    }

    open spec fn step(self, call: Call) -> (Self, Answer) {
        let unknown: (Self, Answer) = (self, Err(proto::ProtocolError::UnknownOpcode(call.opcode)));
        if call.opcode == l0_op::CONTEXT_CREATE {
            (
                L0State {
                    contexts: self.contexts.inserted(L0CtxState { created: true }),
                    ..self
                },
                Ok(
                    (l0::ContextCreateResponse {
                        context: self.contexts.next_handle(KIND_L0_CONTEXT),
                    }).bytes(),
                ),
            )
        } else if call.opcode == l0_op::MEM_ALLOC_DEVICE {
            match l0::MemAllocDeviceRequest::parse(call.body) {
                Err(e) => (self, Err(e)),
                Ok(req) => if self.contexts.lookup(req.context) is Some {
                    (
                        L0State {
                            mems: self.mems.inserted(
                                L0MemState { context: req.context, size: req.size },
                            ),
                            ..self
                        },
                        Ok(
                            (l0::MemAllocDeviceResponse {
                                ptr: self.mems.next_handle(KIND_L0_DEVICE_MEM),
                            }).bytes(),
                        ),
                    )
                } else {
                    unknown
                },
            }
        } else if call.opcode == l0_op::MEM_FREE {
            match l0::MemFreeRequest::parse(call.body) {
                Err(e) => (self, Err(e)),
                Ok(req) => if self.mems.lookup(req.ptr) is Some {
                    (
                        L0State { mems: self.mems.removed(req.ptr), ..self },
                        Ok(seq![]),
                    )
                } else {
                    unknown
                },
            }
        } else {
            unknown
        }
    }

    proof fn law_step_keeps(self, call: Call) {
        crate::handles::law_table_keeps(self.contexts);
        crate::handles::law_table_keeps(self.mems);
    }

    proof fn law_refusal_changes_nothing(self, call: Call) {
    }

    proof fn law_req_id_plays_no_part(self, call: Call, req_id: u32) {
    }
}

impl View for L0Backend {
    type V = L0State;

    open spec fn view(&self) -> L0State {
        L0State { contexts: self.contexts@, mems: self.mems@ }
    }
}

impl L0Backend {
    /// Create a new Level Zero backend stub with empty object tables.
    #[must_use]
    pub fn new() -> (backend: Self)
        ensures
            backend.inv(),
            backend@ == L0State::empty(),
    {
        Self { contexts: HandleTable::new(), mems: HandleTable::new() }
    }
}

impl Default for L0Backend {
    fn default() -> (backend: Self)
        ensures
            backend.inv(),
            backend@ == L0State::empty(),
    {
        Self::new()
    }
}

impl Backend for L0Backend {
    open spec fn inv(&self) -> bool {
        &&& self.contexts.wf()
        &&& self.mems.wf()
    }

    open spec fn spec_api(&self) -> proto::ApiId {
        proto::ApiId::LevelZero
    }

    open spec fn answer(&self, past: Seq<Call>, call: Call) -> Answer {
        super::backend::run_answer(self@, past, call)
    }

    fn api(&self) -> (api: proto::ApiId) {
        proto::ApiId::LevelZero
    }

    fn handle(
        &mut self,
        opcode: u32,
        req_id: u32,
        body: &[u8],
    ) -> (r: Result<Vec<u8>, proto::ProtocolError>)
        ensures
            (final(self)@, super::backend::answer_of(r)) == old(self)@.step(
                Call { opcode, req_id, body: body@ },
            ),
    {
        proof {
            super::backend::law_step_then_answer(self@, Call { opcode, req_id, body: body@ });
        }
        // Reject anything outside the Level Zero namespace outright.
        if proto::opcode_api(opcode) != proto::ApiId::LevelZero.to_byte() {
            return Err(proto::ProtocolError::UnknownOpcode(opcode));
        }
        match opcode {
            l0_op::CONTEXT_CREATE => {
                // The request body is empty, so there is nothing to decode.
                let context = self.contexts.insert(KIND_L0_CONTEXT, L0CtxState { created: true });
                let mut out: Vec<u8> = Vec::new();
                (l0::ContextCreateResponse { context }).encode(&mut out);
                Ok(out)
            },
            l0_op::MEM_ALLOC_DEVICE => {
                let req = l0::MemAllocDeviceRequest::decode(body)?;
                // The context must have been created on this backend.
                if self.contexts.get(req.context).is_none() {
                    return Err(proto::ProtocolError::UnknownOpcode(opcode));
                }
                let ptr = self.mems.insert(
                    KIND_L0_DEVICE_MEM,
                    L0MemState { context: req.context, size: req.size },
                );
                let mut out: Vec<u8> = Vec::new();
                (l0::MemAllocDeviceResponse { ptr }).encode(&mut out);
                Ok(out)
            },
            l0_op::MEM_FREE => {
                let req = l0::MemFreeRequest::decode(body)?;
                // The allocation must have been created on this backend and
                // still be live; removing it both validates and frees it.
                if self.mems.remove(req.ptr).is_none() {
                    return Err(proto::ProtocolError::UnknownOpcode(opcode));
                }
                // Acknowledge with an empty body.
                Ok(Vec::new())
            },
            // Everything else in the Level Zero namespace is not implemented yet.
            other => Err(proto::ProtocolError::UnknownOpcode(other)),
        }
    }
}

impl Keeps<L0CtxState> for L0State {
    open spec fn table(self) -> TableState<L0CtxState> {
        self.contexts
    }

    open spec fn op(self, call: Call) -> TableOp<L0CtxState> {
        if call.opcode == l0_op::CONTEXT_CREATE {
            TableOp::Insert(L0CtxState { created: true })
        } else {
            TableOp::Read
        }
    }

    proof fn law_call_is_op(self, call: Call) {
    }
}

impl Keeps<L0MemState> for L0State {
    open spec fn table(self) -> TableState<L0MemState> {
        self.mems
    }

    open spec fn op(self, call: Call) -> TableOp<L0MemState> {
        if call.opcode == l0_op::MEM_ALLOC_DEVICE {
            match l0::MemAllocDeviceRequest::parse(call.body) {
                Ok(req) => if self.contexts.lookup(req.context) is Some {
                    TableOp::Insert(L0MemState { context: req.context, size: req.size })
                } else {
                    TableOp::Read
                },
                Err(_) => TableOp::Read,
            }
        } else if call.opcode == l0_op::MEM_FREE {
            match l0::MemFreeRequest::parse(call.body) {
                Ok(req) => TableOp::Remove(req.ptr),
                Err(_) => TableOp::Read,
            }
        } else {
            TableOp::Read
        }
    }

    proof fn law_call_is_op(self, call: Call) {
    }
}

/// Whether `call` is a [`l0_op::MEM_FREE`] that names the object of `h`.
pub open spec fn is_mem_free(call: Call, h: proto::Handle) -> bool {
    &&& call.opcode == l0_op::MEM_FREE
    &&& l0::MemFreeRequest::parse(call.body) matches Ok(req)
    &&& handles::same_object(req.ptr, h)
}

/// The history of the contexts: a call has made the object of a handle if and only
/// if it was a [`l0_op::CONTEXT_CREATE`] answered with a handle of the same slot
/// and generation, and no call takes one away.
pub proof fn law_contexts_history(past: Seq<Call>, i: int, h: proto::Handle)
    ensures
        backend::makes::<L0CtxState, L0State>(L0State::empty(), past, i, h) <==> {
            &&& 0 <= i < past.len()
            &&& past[i].opcode == l0_op::CONTEXT_CREATE
            &&& exists|g: proto::Handle| #[trigger]
                handles::same_object(g, h) && backend::run_answer(
                    L0State::empty(),
                    past.take(i),
                    past[i],
                ) == Answer::Ok((l0::ContextCreateResponse { context: g }).bytes())
        },
        !backend::takes::<L0CtxState, L0State>(L0State::empty(), past, i, h),
{
    if 0 <= i < past.len() {
        let s = backend::run_state(L0State::empty(), past.take(i));
        let made = s.contexts.next_handle(KIND_L0_CONTEXT);
        backend::law_answer_of_state(L0State::empty(), past.take(i), past[i]);
        handles::law_next_handle_kinds(s.contexts, 0, KIND_L0_CONTEXT);
        let of_made = l0::ContextCreateResponse { context: made };
        of_made.law_whole();
        if backend::makes::<L0CtxState, L0State>(L0State::empty(), past, i, h) {
            assert(handles::same_object(made, h));
        }
        if exists|g: proto::Handle| #[trigger]
            handles::same_object(g, h) && backend::run_answer(
                L0State::empty(),
                past.take(i),
                past[i],
            ) == Answer::Ok((l0::ContextCreateResponse { context: g }).bytes()) {
            let g = choose|g: proto::Handle| #[trigger]
                handles::same_object(g, h) && backend::run_answer(
                    L0State::empty(),
                    past.take(i),
                    past[i],
                ) == Answer::Ok((l0::ContextCreateResponse { context: g }).bytes());
            let of_g = l0::ContextCreateResponse { context: g };
            of_g.law_whole();
        }
    }
}

/// No two [`l0_op::CONTEXT_CREATE`] calls are answered with handles of the same
/// slot and generation, and each handle is of its kind.
pub proof fn law_context_create_issues_once(
    past: Seq<Call>,
    i: int,
    j: int,
    g: proto::Handle,
    h: proto::Handle,
)
    requires
        0 <= i < j < past.len(),
        past[i].opcode == l0_op::CONTEXT_CREATE,
        past[j].opcode == l0_op::CONTEXT_CREATE,
        backend::run_answer(L0State::empty(), past.take(i), past[i]) == Answer::Ok(
            (l0::ContextCreateResponse { context: g }).bytes(),
        ),
        backend::run_answer(L0State::empty(), past.take(j), past[j]) == Answer::Ok(
            (l0::ContextCreateResponse { context: h }).bytes(),
        ),
        backend::run_state(L0State::empty(), past).contexts.slots.len() <= 0x1_0000_0000,
    ensures
        !handles::same_object(g, h),
        g.spec_kind() == KIND_L0_CONTEXT,
        h.spec_kind() == KIND_L0_CONTEXT,
{
    let empty = L0State::empty();
    let s = backend::run_state(empty, past.take(i));
    let t = backend::run_state(empty, past.take(j));
    backend::law_answer_of_state(empty, past.take(i), past[i]);
    backend::law_answer_of_state(empty, past.take(j), past[j]);
    let of_g = l0::ContextCreateResponse { context: g };
    of_g.law_whole();
    let of_h = l0::ContextCreateResponse { context: h };
    of_h.law_whole();
    let made_i = s.contexts.next_handle(KIND_L0_CONTEXT);
    let of_made_i = l0::ContextCreateResponse { context: made_i };
    of_made_i.law_whole();
    let made_j = t.contexts.next_handle(KIND_L0_CONTEXT);
    let of_made_j = l0::ContextCreateResponse { context: made_j };
    of_made_j.law_whole();
    backend::law_made_once::<L0CtxState, L0State>(empty, past, i, j, KIND_L0_CONTEXT);
}

/// The history of the mems: a call has made the object of a handle if and only if
/// it was a [`l0_op::MEM_ALLOC_DEVICE`] answered with a handle of the same slot and
/// generation, and takes it away if and only if it is a [`l0_op::MEM_FREE`] that
/// names it.
pub proof fn law_mems_history(past: Seq<Call>, i: int, h: proto::Handle)
    ensures
        backend::makes::<L0MemState, L0State>(L0State::empty(), past, i, h) <==> {
            &&& 0 <= i < past.len()
            &&& past[i].opcode == l0_op::MEM_ALLOC_DEVICE
            &&& exists|g: proto::Handle| #[trigger]
                handles::same_object(g, h) && backend::run_answer(
                    L0State::empty(),
                    past.take(i),
                    past[i],
                ) == Answer::Ok((l0::MemAllocDeviceResponse { ptr: g }).bytes())
        },
        backend::takes::<L0MemState, L0State>(L0State::empty(), past, i, h)
            <==> 0 <= i < past.len() && is_mem_free(past[i], h),
{
    if 0 <= i < past.len() {
        let s = backend::run_state(L0State::empty(), past.take(i));
        let made = s.mems.next_handle(KIND_L0_DEVICE_MEM);
        backend::law_answer_of_state(L0State::empty(), past.take(i), past[i]);
        handles::law_next_handle_kinds(s.mems, 0, KIND_L0_DEVICE_MEM);
        let of_made = l0::MemAllocDeviceResponse { ptr: made };
        of_made.law_whole();
        if backend::makes::<L0MemState, L0State>(L0State::empty(), past, i, h) {
            assert(handles::same_object(made, h));
        }
        if exists|g: proto::Handle| #[trigger]
            handles::same_object(g, h) && backend::run_answer(
                L0State::empty(),
                past.take(i),
                past[i],
            ) == Answer::Ok((l0::MemAllocDeviceResponse { ptr: g }).bytes()) {
            let g = choose|g: proto::Handle| #[trigger]
                handles::same_object(g, h) && backend::run_answer(
                    L0State::empty(),
                    past.take(i),
                    past[i],
                ) == Answer::Ok((l0::MemAllocDeviceResponse { ptr: g }).bytes());
            let of_g = l0::MemAllocDeviceResponse { ptr: g };
            of_g.law_whole();
        }
    }
}

/// No two [`l0_op::MEM_ALLOC_DEVICE`] calls are answered with handles of the same
/// slot and generation, and each handle is of its kind.
pub proof fn law_mem_alloc_device_issues_once(
    past: Seq<Call>,
    i: int,
    j: int,
    g: proto::Handle,
    h: proto::Handle,
)
    requires
        0 <= i < j < past.len(),
        past[i].opcode == l0_op::MEM_ALLOC_DEVICE,
        past[j].opcode == l0_op::MEM_ALLOC_DEVICE,
        backend::run_answer(L0State::empty(), past.take(i), past[i]) == Answer::Ok(
            (l0::MemAllocDeviceResponse { ptr: g }).bytes(),
        ),
        backend::run_answer(L0State::empty(), past.take(j), past[j]) == Answer::Ok(
            (l0::MemAllocDeviceResponse { ptr: h }).bytes(),
        ),
        backend::run_state(L0State::empty(), past).mems.slots.len() <= 0x1_0000_0000,
    ensures
        !handles::same_object(g, h),
        g.spec_kind() == KIND_L0_DEVICE_MEM,
        h.spec_kind() == KIND_L0_DEVICE_MEM,
{
    let empty = L0State::empty();
    let s = backend::run_state(empty, past.take(i));
    let t = backend::run_state(empty, past.take(j));
    backend::law_answer_of_state(empty, past.take(i), past[i]);
    backend::law_answer_of_state(empty, past.take(j), past[j]);
    let of_g = l0::MemAllocDeviceResponse { ptr: g };
    of_g.law_whole();
    let of_h = l0::MemAllocDeviceResponse { ptr: h };
    of_h.law_whole();
    let made_i = s.mems.next_handle(KIND_L0_DEVICE_MEM);
    let of_made_i = l0::MemAllocDeviceResponse { ptr: made_i };
    of_made_i.law_whole();
    let made_j = t.mems.next_handle(KIND_L0_DEVICE_MEM);
    let of_made_j = l0::MemAllocDeviceResponse { ptr: made_j };
    of_made_j.law_whole();
    backend::law_made_once::<L0MemState, L0State>(empty, past, i, j, KIND_L0_DEVICE_MEM);
}

/// A [`l0_op::MEM_ALLOC_DEVICE`] is answered if and only if the context it names
/// was made by an earlier call; else it is refused.
pub proof fn law_mem_alloc_device_iff_live(past: Seq<Call>, call: Call)
    requires
        call.opcode == l0_op::MEM_ALLOC_DEVICE,
        l0::MemAllocDeviceRequest::parse(call.body) is Ok,
        backend::run_state(L0State::empty(), past).contexts.slots.len() <= 0x1_0000_0000,
    ensures
        ({
            let h = l0::MemAllocDeviceRequest::parse(call.body)->Ok_0.context;
            if backend::is_live::<L0CtxState, L0State>(L0State::empty(), past, h) {
                backend::run_answer(L0State::empty(), past, call) == Answer::Ok(
                    (l0::MemAllocDeviceResponse {
                        ptr: backend::run_state(
                            L0State::empty(),
                            past,
                        ).mems.next_handle(KIND_L0_DEVICE_MEM),
                    }).bytes(),
                )
            } else {
                backend::run_answer(L0State::empty(), past, call) == Answer::Err(
                    proto::ProtocolError::UnknownOpcode(call.opcode),
                )
            }
        }),
{
    let h = l0::MemAllocDeviceRequest::parse(call.body)->Ok_0.context;
    backend::law_live_is_history::<L0CtxState, L0State>(L0State::empty(), past, h);
    backend::law_answer_of_state(L0State::empty(), past, call);
}

/// A [`l0_op::MEM_FREE`] is answered if and only if the mem it names was made by an
/// earlier call and not taken away since; else it is refused.
pub proof fn law_mem_free_iff_live(past: Seq<Call>, call: Call)
    requires
        call.opcode == l0_op::MEM_FREE,
        l0::MemFreeRequest::parse(call.body) is Ok,
        backend::run_state(L0State::empty(), past).mems.slots.len() <= 0x1_0000_0000,
    ensures
        ({
            let h = l0::MemFreeRequest::parse(call.body)->Ok_0.ptr;
            if backend::is_live::<L0MemState, L0State>(L0State::empty(), past, h) {
                backend::run_answer(L0State::empty(), past, call) == Answer::Ok(seq![])
            } else {
                backend::run_answer(L0State::empty(), past, call) == Answer::Err(
                    proto::ProtocolError::UnknownOpcode(call.opcode),
                )
            }
        }),
{
    let h = l0::MemFreeRequest::parse(call.body)->Ok_0.ptr;
    backend::law_live_is_history::<L0MemState, L0State>(L0State::empty(), past, h);
    backend::law_answer_of_state(L0State::empty(), past, call);
}

/// What [`l0_op::CONTEXT_CREATE`] hands out can be used for
/// [`l0_op::MEM_ALLOC_DEVICE`], whatever calls come between.
pub proof fn law_context_create_then_mem_alloc_device(
    s: L0State,
    make: Call,
    past: Seq<Call>,
    call: Call,
)
    requires
        s.ok(),
        s.contexts.free.len() > 0 || s.contexts.slots.len() < 0x1_0000_0000,
        make.opcode == l0_op::CONTEXT_CREATE,
        call.opcode == l0_op::MEM_ALLOC_DEVICE,
        l0::MemAllocDeviceRequest::parse(call.body) matches Ok(req) && handles::same_object(
            req.context,
            s.contexts.next_handle(KIND_L0_CONTEXT),
        ),
    ensures
        s.step(make).1 == Answer::Ok(
            (l0::ContextCreateResponse {
                context: s.contexts.next_handle(KIND_L0_CONTEXT),
            }).bytes(),
        ),
        backend::run_answer(s.step(make).0, past, call) == Answer::Ok(
            (l0::MemAllocDeviceResponse {
                ptr: backend::run_state(s.step(make).0, past).mems.next_handle(KIND_L0_DEVICE_MEM),
            }).bytes(),
        ),
{
    handles::law_insert_resolves(
        s.contexts,
        KIND_L0_CONTEXT,
        L0CtxState { created: true },
    );
    let h = s.contexts.next_handle(KIND_L0_CONTEXT);
    let after = s.step(make).0;
    s.law_step_keeps(make);
    backend::law_answer_of_state(after, past, call);
    assert forall|j: int| !(#[trigger] backend::takes::<L0CtxState, L0State>(
        after,
        past,
        j,
        h,
    )) by {
    }
    backend::law_stays_live::<L0CtxState, L0State>(after, past, h);
}

/// What [`l0_op::MEM_ALLOC_DEVICE`] hands out can be used for [`l0_op::MEM_FREE`],
/// whatever calls come between that do not take it away.
pub proof fn law_mem_alloc_device_then_mem_free(
    s: L0State,
    make: Call,
    past: Seq<Call>,
    call: Call,
)
    requires
        s.ok(),
        s.mems.free.len() > 0 || s.mems.slots.len() < 0x1_0000_0000,
        make.opcode == l0_op::MEM_ALLOC_DEVICE,
        l0::MemAllocDeviceRequest::parse(make.body) matches Ok(req)
            && s.contexts.lookup(req.context) is Some,
        call.opcode == l0_op::MEM_FREE,
        l0::MemFreeRequest::parse(call.body) matches Ok(req) && handles::same_object(
            req.ptr,
            s.mems.next_handle(KIND_L0_DEVICE_MEM),
        ),
        forall|j: int| 0 <= j < past.len() ==> !is_mem_free(
            #[trigger] past[j],
            s.mems.next_handle(KIND_L0_DEVICE_MEM),
        ),
    ensures
        s.step(make).1 == Answer::Ok(
            (l0::MemAllocDeviceResponse { ptr: s.mems.next_handle(KIND_L0_DEVICE_MEM) }).bytes(),
        ),
        backend::run_answer(s.step(make).0, past, call) == Answer::Ok(seq![]),
{
    let req = l0::MemAllocDeviceRequest::parse(make.body)->Ok_0;
    handles::law_insert_resolves(
        s.mems,
        KIND_L0_DEVICE_MEM,
        L0MemState { context: req.context, size: req.size },
    );
    let h = s.mems.next_handle(KIND_L0_DEVICE_MEM);
    let after = s.step(make).0;
    s.law_step_keeps(make);
    backend::law_answer_of_state(after, past, call);
    assert forall|j: int| !(#[trigger] backend::takes::<L0MemState, L0State>(
        after,
        past,
        j,
        h,
    )) by {
        if 0 <= j < past.len() {
            assert(!is_mem_free(past[j], h));
        }
    }
    backend::law_stays_live::<L0MemState, L0State>(after, past, h);
}

/// What a [`l0_op::MEM_FREE`] has taken away stays away: a call that names the same
/// object is refused afterwards, whatever calls come between.
pub proof fn law_mem_free_is_final(
    s: L0State,
    h: proto::Handle,
    past: Seq<Call>,
    call: Call,
    again: Call,
)
    requires
        s.ok(),
        s.mems.lookup(h) is Some,
        is_mem_free(call, h),
        is_mem_free(again, h),
    ensures
        s.step(call).1 == Answer::Ok(seq![]),
        backend::run_answer(s.step(call).0, past, again)
            == Answer::Err(proto::ProtocolError::UnknownOpcode(again.opcode)),
{
    s.law_step_keeps(call);
    backend::law_answer_of_state(s.step(call).0, past, again);
    backend::law_gone_stays_gone::<L0MemState, L0State>(s.step(call).0, past, h);
}

/// A [`l0_op::CONTEXT_CREATE`] is always answered, whatever calls came before and
/// whatever its body holds, with a handle of its kind. As long as a slot index is
/// left, the handle names a context that was not there before; nothing else
/// changes.
pub proof fn law_context_create_answered(
    s: L0State,
    body: Seq<u8>,
    req_id: u32,
) -> (h: proto::Handle)
    ensures
        ({
            let call = Call { opcode: l0_op::CONTEXT_CREATE, req_id, body };
            let (after, answer) = s.step(call);
            &&& answer == Answer::Ok((l0::ContextCreateResponse { context: h }).bytes())
            &&& h.spec_kind() == KIND_L0_CONTEXT
            &&& s.ok() && (s.contexts.free.len() > 0 || s.contexts.slots.len()
                < 0x1_0000_0000) ==> {
                &&& s.contexts.lookup(h) is None
                &&& after.contexts.lookup(h) == Some(L0CtxState { created: true })
                &&& forall|g: proto::Handle|
                    !handles::same_object(g, h) ==> #[trigger] after.contexts.lookup(g)
                        == s.contexts.lookup(g)
            }
            &&& after.mems == s.mems
        }),
{
    handles::law_insert_issues(s.contexts, KIND_L0_CONTEXT, L0CtxState { created: true });
    s.contexts.next_handle(KIND_L0_CONTEXT)
}

/// A [`l0_op::MEM_ALLOC_DEVICE`] that names a live context is always answered,
/// whatever calls came before and whatever bytes follow the request, with a handle
/// of its kind. As long as a slot index is left, the handle names a mem that was
/// not there before and that holds what was asked for; nothing else changes.
pub proof fn law_mem_alloc_device_answered(
    s: L0State,
    req: l0::MemAllocDeviceRequest,
    rest: Seq<u8>,
    req_id: u32,
) -> (h: proto::Handle)
    requires
        s.contexts.lookup(req.context) is Some,
    ensures
        ({
            let call = Call { opcode: l0_op::MEM_ALLOC_DEVICE, req_id, body: req.bytes() + rest };
            let (after, answer) = s.step(call);
            &&& answer == Answer::Ok((l0::MemAllocDeviceResponse { ptr: h }).bytes())
            &&& h.spec_kind() == KIND_L0_DEVICE_MEM
            &&& s.ok() && (s.mems.free.len() > 0 || s.mems.slots.len() < 0x1_0000_0000) ==> {
                &&& s.mems.lookup(h) is None
                &&& after.mems.lookup(h) == Some(
                    L0MemState { context: req.context, size: req.size },
                )
                &&& forall|g: proto::Handle|
                    !handles::same_object(g, h) ==> #[trigger] after.mems.lookup(g)
                        == s.mems.lookup(g)
            }
            &&& after.contexts == s.contexts
        }),
{
    req.law_round_trip(rest);
    handles::law_insert_issues(
        s.mems,
        KIND_L0_DEVICE_MEM,
        L0MemState { context: req.context, size: req.size },
    );
    s.mems.next_handle(KIND_L0_DEVICE_MEM)
}

/// A [`l0_op::MEM_ALLOC_DEVICE`] that names no live context is refused by its
/// opcode, and changes nothing.
pub proof fn law_mem_alloc_device_needs_context(
    s: L0State,
    req: l0::MemAllocDeviceRequest,
    rest: Seq<u8>,
    req_id: u32,
)
    requires
        s.contexts.lookup(req.context) is None,
    ensures
        s.step(Call { opcode: l0_op::MEM_ALLOC_DEVICE, req_id, body: req.bytes() + rest }) == (
            s,
            Answer::Err(proto::ProtocolError::UnknownOpcode(l0_op::MEM_ALLOC_DEVICE)),
        ),
{
    req.law_round_trip(rest);
}

/// A [`l0_op::MEM_FREE`] takes away the mem it names, and nothing else, and is
/// acknowledged with an empty body; where there is no such mem it is refused by its
/// opcode and nothing changes. What follows the request plays no part.
pub proof fn law_mem_free_takes_one(
    s: L0State,
    req: l0::MemFreeRequest,
    rest: Seq<u8>,
    req_id: u32,
)
    ensures
        ({
            let call = Call { opcode: l0_op::MEM_FREE, req_id, body: req.bytes() + rest };
            let (after, answer) = s.step(call);
            &&& s.mems.lookup(req.ptr) is Some ==> {
                &&& answer == Answer::Ok(seq![])
                &&& forall|g: proto::Handle|
                    handles::same_object(g, req.ptr) ==> #[trigger] after.mems.lookup(
                        g,
                    ) is None
            }
            &&& s.mems.lookup(req.ptr) is None ==> {
                &&& answer == Answer::Err(
                    proto::ProtocolError::UnknownOpcode(l0_op::MEM_FREE),
                )
                &&& after == s
            }
            &&& forall|g: proto::Handle|
                !handles::same_object(g, req.ptr) ==> #[trigger] after.mems.lookup(g)
                    == s.mems.lookup(g)
            &&& after.contexts == s.contexts
        }),
{
    req.law_round_trip(rest);
    handles::law_remove_takes_one(s.mems, req.ptr);
}

/// A call whose body is too short for its request is refused as an unexpected end,
/// and changes nothing.
pub proof fn law_short_bodies_refused(s: L0State, call: Call)
    requires
        ({
            ||| call.opcode == l0_op::MEM_ALLOC_DEVICE && call.body.len() < 16
            ||| call.opcode == l0_op::MEM_FREE && call.body.len() < 8
        }),
    ensures
        s.step(call) == (s, Answer::Err(proto::ProtocolError::UnexpectedEof)),
{
}

/// Only calls of the backend's own namespace are answered. Every other opcode, of
/// the namespace or not, is refused by that opcode, whatever its body holds, and
/// changes nothing.
pub proof fn law_other_calls_refused(s: L0State, call: Call)
    ensures
        s.step(call).1 is Ok ==> call.opcode / 0x100_0000 == proto::ApiId::LevelZero.byte(),
        ({
            &&& call.opcode != l0_op::CONTEXT_CREATE
            &&& call.opcode != l0_op::MEM_ALLOC_DEVICE
            &&& call.opcode != l0_op::MEM_FREE
        }) ==> s.step(call) == (
            s,
            Answer::Err(proto::ProtocolError::UnknownOpcode(call.opcode)),
        ),
{
}

/// A new backend serves the namespace of its API, and holds nothing that a handle
/// resolves to.
pub proof fn law_new_backend(
    backend: L0Backend,
    reader: &L0Backend,
    api: proto::ApiId,
    h: proto::Handle,
)
    requires
        call_ensures(L0Backend::new, (), backend),
        call_ensures(<L0Backend as Backend>::api, (reader,), api),
    ensures
        api == proto::ApiId::LevelZero,
        api.byte() == 6,
        backend.inv(),
        backend@.contexts.lookup(h) is None,
        backend@.mems.lookup(h) is None,
{
}

} // verus!
