//! CUDA backend dispatch.
//!
//! The [`Session`](crate::server::Session) routes any CUDA-namespace opcode to this
//! backend. Like the Vulkan and OpenGL backends, the CUDA backend is a pure-Rust
//! **stub**: it tracks object lifetimes in generational handle tables but
//! performs no real driver work. No CUDA toolkit, GPU, or FFI dependency is
//! involved.
use vstd::prelude::*;

use super::backend;
use super::backend::{Answer, Backend, Call, Keeps, Machine};
use crate::handles;
use crate::handles::{HandleTable, TableOp, TableState};
use crate::protocol as proto;
use crate::protocol::cuda;
use crate::protocol::cuda_op;
use crate::protocol::wire::Wire;

verus! {

broadcast use crate::protocol::bytes::lemma_append_to_empty;

/// Server object kind for a CUDA context handle.
pub const KIND_CUDA_CONTEXT: u8 = 20;

/// Server object kind for a CUDA device-pointer handle.
pub const KIND_CUDA_DEVICE_PTR: u8 = 21;

/// Server-side state tracked for one created CUDA context.
#[derive(Debug)]
pub struct CudaCtxState {
    /// Ordinal of the device this context was created on. Recorded
    /// for lifetime and ownership checks.
    pub device_ordinal: u32,
}

/// Server-side state tracked for one CUDA allocation.
#[derive(Debug)]
pub struct CudaMemState {
    /// The context handle this allocation was made in. Recorded
    /// for lifetime and ownership checks.
    pub context: proto::Handle,
    /// Size of the allocation in bytes.
    pub size: u64,
}

/// Pure-Rust CUDA backend stub.
///
/// Owns generational handle tables for the CUDA objects it tracks. It answers
/// [`cuda_op::CTX_CREATE`](proto::cuda_op::CTX_CREATE) by minting a context
/// handle, [`cuda_op::MEM_ALLOC`](proto::cuda_op::MEM_ALLOC) by minting a
/// device-pointer handle parented to a known context, and
/// [`cuda_op::MEM_FREE`](proto::cuda_op::MEM_FREE) by removing a known
/// device-pointer handle and acknowledging with an empty body. The real driver
/// bridge lands later; every other CUDA call is reported as
/// not-yet-implemented via
/// [`ProtocolError::UnknownOpcode`](proto::ProtocolError::UnknownOpcode).
pub struct CudaBackend {
    /// The contexts.
    pub contexts: HandleTable<CudaCtxState>,
    /// The allocations.
    pub allocations: HandleTable<CudaMemState>,
}

/// What the CUDA backend holds.
pub ghost struct CudaState {
    /// The contexts.
    pub contexts: TableState<CudaCtxState>,
    /// The allocations.
    pub allocations: TableState<CudaMemState>,
}

impl CudaState {
    /// The state without objects.
    pub open spec fn empty() -> Self {
        CudaState { contexts: TableState::empty(), allocations: TableState::empty() }
    }
}

impl Machine for CudaState {
    open spec fn ok(self) -> bool {
        &&& self.contexts.inv()
        &&& self.allocations.inv()
    }

    open spec fn step(self, call: Call) -> (Self, Answer) {
        let unknown: (Self, Answer) = (self, Err(proto::ProtocolError::UnknownOpcode(call.opcode)));
        if call.opcode == cuda_op::CTX_CREATE {
            match cuda::CtxCreateRequest::parse(call.body) {
                Err(e) => (self, Err(e)),
                Ok(req) => (
                    CudaState {
                        contexts: self.contexts.inserted(
                            CudaCtxState { device_ordinal: req.device_ordinal },
                        ),
                        ..self
                    },
                    Ok(
                        (cuda::CtxCreateResponse {
                            context: self.contexts.next_handle(KIND_CUDA_CONTEXT),
                        }).bytes(),
                    ),
                ),
            }
        } else if call.opcode == cuda_op::MEM_ALLOC {
            match cuda::MemAllocRequest::parse(call.body) {
                Err(e) => (self, Err(e)),
                Ok(req) => if self.contexts.lookup(req.context) is Some {
                    (
                        CudaState {
                            allocations: self.allocations.inserted(
                                CudaMemState { context: req.context, size: req.size },
                            ),
                            ..self
                        },
                        Ok(
                            (cuda::MemAllocResponse {
                                dptr: self.allocations.next_handle(KIND_CUDA_DEVICE_PTR),
                            }).bytes(),
                        ),
                    )
                } else {
                    unknown
                },
            }
        } else if call.opcode == cuda_op::MEM_FREE {
            match cuda::MemFreeRequest::parse(call.body) {
                Err(e) => (self, Err(e)),
                Ok(req) => if self.allocations.lookup(req.dptr) is Some {
                    (
                        CudaState { allocations: self.allocations.removed(req.dptr), ..self },
                        Ok(seq![]),
                    )
                } else {
                    unknown
                },
            }
        } else {
            unknown
        }
    }

    proof fn law_step_keeps(self, call: Call) {
        crate::handles::law_table_keeps(self.contexts);
        crate::handles::law_table_keeps(self.allocations);
    }

    proof fn law_refusal_changes_nothing(self, call: Call) {
    }

    proof fn law_req_id_plays_no_part(self, call: Call, req_id: u32) {
    }
}

impl View for CudaBackend {
    type V = CudaState;

    open spec fn view(&self) -> CudaState {
        CudaState { contexts: self.contexts@, allocations: self.allocations@ }
    }
}

impl CudaBackend {
    /// Create a new CUDA backend stub with empty object tables.
    #[must_use]
    pub fn new() -> (backend: Self)
        ensures
            backend.inv(),
            backend@ == CudaState::empty(),
    {
        Self { contexts: HandleTable::new(), allocations: HandleTable::new() }
    }
}

impl Default for CudaBackend {
    fn default() -> (backend: Self)
        ensures
            backend.inv(),
            backend@ == CudaState::empty(),
    {
        Self::new()
    }
}

impl Backend for CudaBackend {
    open spec fn inv(&self) -> bool {
        &&& self.contexts.wf()
        &&& self.allocations.wf()
    }

    open spec fn spec_api(&self) -> proto::ApiId {
        proto::ApiId::Cuda
    }

    open spec fn answer(&self, past: Seq<Call>, call: Call) -> Answer {
        super::backend::run_answer(self@, past, call)
    }

    fn api(&self) -> (api: proto::ApiId) {
        proto::ApiId::Cuda
    }

    fn handle(
        &mut self,
        opcode: u32,
        req_id: u32,
        body: &[u8],
    ) -> (r: Result<Vec<u8>, proto::ProtocolError>)
        ensures
            (final(self)@, super::backend::answer_of(r)) == old(self)@.step(
                Call { opcode, req_id, body: body@ },
            ),
    {
        proof {
            super::backend::law_step_then_answer(self@, Call { opcode, req_id, body: body@ });
        }
        // Reject anything outside the CUDA namespace outright.
        if proto::opcode_api(opcode) != proto::ApiId::Cuda.to_byte() {
            return Err(proto::ProtocolError::UnknownOpcode(opcode));
        }
        match opcode {
            cuda_op::CTX_CREATE => {
                let req = cuda::CtxCreateRequest::decode(body)?;
                let context = self.contexts.insert(
                    KIND_CUDA_CONTEXT,
                    CudaCtxState { device_ordinal: req.device_ordinal },
                );
                let mut out: Vec<u8> = Vec::new();
                (cuda::CtxCreateResponse { context }).encode(&mut out);
                Ok(out)
            },
            cuda_op::MEM_ALLOC => {
                let req = cuda::MemAllocRequest::decode(body)?;
                // The context must have been created on this backend.
                if self.contexts.get(req.context).is_none() {
                    return Err(proto::ProtocolError::UnknownOpcode(opcode));
                }
                let dptr = self.allocations.insert(
                    KIND_CUDA_DEVICE_PTR,
                    CudaMemState { context: req.context, size: req.size },
                );
                let mut out: Vec<u8> = Vec::new();
                (cuda::MemAllocResponse { dptr }).encode(&mut out);
                Ok(out)
            },
            cuda_op::MEM_FREE => {
                let req = cuda::MemFreeRequest::decode(body)?;
                // The device pointer must have been allocated on this backend and
                // still be live; removing it both validates and frees it.
                if self.allocations.remove(req.dptr).is_none() {
                    return Err(proto::ProtocolError::UnknownOpcode(opcode));
                }
                // Acknowledge with an empty body.
                Ok(Vec::new())
            },
            // Everything else in the CUDA namespace is not implemented yet.
            other => Err(proto::ProtocolError::UnknownOpcode(other)),
        }
    }
}

impl Keeps<CudaCtxState> for CudaState {
    open spec fn table(self) -> TableState<CudaCtxState> {
        self.contexts
    }

    open spec fn op(self, call: Call) -> TableOp<CudaCtxState> {
        if call.opcode == cuda_op::CTX_CREATE {
            match cuda::CtxCreateRequest::parse(call.body) {
                Ok(req) => TableOp::Insert(CudaCtxState { device_ordinal: req.device_ordinal }),
                Err(_) => TableOp::Read,
            }
        } else {
            TableOp::Read
        }
    }

    proof fn law_call_is_op(self, call: Call) {
    }
}

impl Keeps<CudaMemState> for CudaState {
    open spec fn table(self) -> TableState<CudaMemState> {
        self.allocations
    }

    open spec fn op(self, call: Call) -> TableOp<CudaMemState> {
        if call.opcode == cuda_op::MEM_ALLOC {
            match cuda::MemAllocRequest::parse(call.body) {
                Ok(req) => if self.contexts.lookup(req.context) is Some {
                    TableOp::Insert(CudaMemState { context: req.context, size: req.size })
                } else {
                    TableOp::Read
                },
                Err(_) => TableOp::Read,
            }
        } else if call.opcode == cuda_op::MEM_FREE {
            match cuda::MemFreeRequest::parse(call.body) {
                Ok(req) => TableOp::Remove(req.dptr),
                Err(_) => TableOp::Read,
            }
        } else {
            TableOp::Read
        }
    }

    proof fn law_call_is_op(self, call: Call) {
    }
}

/// Whether `call` is a [`cuda_op::MEM_FREE`] that names the object of `h`.
pub open spec fn is_mem_free(call: Call, h: proto::Handle) -> bool {
    &&& call.opcode == cuda_op::MEM_FREE
    &&& cuda::MemFreeRequest::parse(call.body) matches Ok(req)
    &&& handles::same_object(req.dptr, h)
}

/// The history of the contexts: a call has made the object of a handle if and only
/// if it was a [`cuda_op::CTX_CREATE`] answered with a handle of the same slot and
/// generation, and no call takes one away.
pub proof fn law_contexts_history(past: Seq<Call>, i: int, h: proto::Handle)
    ensures
        backend::makes::<CudaCtxState, CudaState>(CudaState::empty(), past, i, h) <==> {
            &&& 0 <= i < past.len()
            &&& past[i].opcode == cuda_op::CTX_CREATE
            &&& exists|g: proto::Handle| #[trigger]
                handles::same_object(g, h) && backend::run_answer(
                    CudaState::empty(),
                    past.take(i),
                    past[i],
                ) == Answer::Ok((cuda::CtxCreateResponse { context: g }).bytes())
        },
        !backend::takes::<CudaCtxState, CudaState>(CudaState::empty(), past, i, h),
{
    if 0 <= i < past.len() {
        let s = backend::run_state(CudaState::empty(), past.take(i));
        let made = s.contexts.next_handle(KIND_CUDA_CONTEXT);
        backend::law_answer_of_state(CudaState::empty(), past.take(i), past[i]);
        handles::law_next_handle_kinds(s.contexts, 0, KIND_CUDA_CONTEXT);
        let of_made = cuda::CtxCreateResponse { context: made };
        of_made.law_whole();
        if backend::makes::<CudaCtxState, CudaState>(CudaState::empty(), past, i, h) {
            assert(handles::same_object(made, h));
        }
        if exists|g: proto::Handle| #[trigger]
            handles::same_object(g, h) && backend::run_answer(
                CudaState::empty(),
                past.take(i),
                past[i],
            ) == Answer::Ok((cuda::CtxCreateResponse { context: g }).bytes()) {
            let g = choose|g: proto::Handle| #[trigger]
                handles::same_object(g, h) && backend::run_answer(
                    CudaState::empty(),
                    past.take(i),
                    past[i],
                ) == Answer::Ok((cuda::CtxCreateResponse { context: g }).bytes());
            let of_g = cuda::CtxCreateResponse { context: g };
            of_g.law_whole();
        }
    }
}

/// No two [`cuda_op::CTX_CREATE`] calls are answered with handles of the same slot
/// and generation, and each handle is of its kind.
pub proof fn law_ctx_create_issues_once(
    past: Seq<Call>,
    i: int,
    j: int,
    g: proto::Handle,
    h: proto::Handle,
)
    requires
        0 <= i < j < past.len(),
        past[i].opcode == cuda_op::CTX_CREATE,
        past[j].opcode == cuda_op::CTX_CREATE,
        backend::run_answer(CudaState::empty(), past.take(i), past[i]) == Answer::Ok(
            (cuda::CtxCreateResponse { context: g }).bytes(),
        ),
        backend::run_answer(CudaState::empty(), past.take(j), past[j]) == Answer::Ok(
            (cuda::CtxCreateResponse { context: h }).bytes(),
        ),
        backend::run_state(CudaState::empty(), past).contexts.slots.len() <= 0x1_0000_0000,
    ensures
        !handles::same_object(g, h),
        g.spec_kind() == KIND_CUDA_CONTEXT,
        h.spec_kind() == KIND_CUDA_CONTEXT,
{
    let empty = CudaState::empty();
    let s = backend::run_state(empty, past.take(i));
    let t = backend::run_state(empty, past.take(j));
    backend::law_answer_of_state(empty, past.take(i), past[i]);
    backend::law_answer_of_state(empty, past.take(j), past[j]);
    let of_g = cuda::CtxCreateResponse { context: g };
    of_g.law_whole();
    let of_h = cuda::CtxCreateResponse { context: h };
    of_h.law_whole();
    let made_i = s.contexts.next_handle(KIND_CUDA_CONTEXT);
    let of_made_i = cuda::CtxCreateResponse { context: made_i };
    of_made_i.law_whole();
    let made_j = t.contexts.next_handle(KIND_CUDA_CONTEXT);
    let of_made_j = cuda::CtxCreateResponse { context: made_j };
    of_made_j.law_whole();
    backend::law_made_once::<CudaCtxState, CudaState>(empty, past, i, j, KIND_CUDA_CONTEXT);
}

/// The history of the allocations: a call has made the object of a handle if and
/// only if it was a [`cuda_op::MEM_ALLOC`] answered with a handle of the same slot
/// and generation, and takes it away if and only if it is a [`cuda_op::MEM_FREE`]
/// that names it.
pub proof fn law_allocations_history(past: Seq<Call>, i: int, h: proto::Handle)
    ensures
        backend::makes::<CudaMemState, CudaState>(CudaState::empty(), past, i, h) <==> {
            &&& 0 <= i < past.len()
            &&& past[i].opcode == cuda_op::MEM_ALLOC
            &&& exists|g: proto::Handle| #[trigger]
                handles::same_object(g, h) && backend::run_answer(
                    CudaState::empty(),
                    past.take(i),
                    past[i],
                ) == Answer::Ok((cuda::MemAllocResponse { dptr: g }).bytes())
        },
        backend::takes::<CudaMemState, CudaState>(CudaState::empty(), past, i, h)
            <==> 0 <= i < past.len() && is_mem_free(past[i], h),
{
    if 0 <= i < past.len() {
        let s = backend::run_state(CudaState::empty(), past.take(i));
        let made = s.allocations.next_handle(KIND_CUDA_DEVICE_PTR);
        backend::law_answer_of_state(CudaState::empty(), past.take(i), past[i]);
        handles::law_next_handle_kinds(s.allocations, 0, KIND_CUDA_DEVICE_PTR);
        let of_made = cuda::MemAllocResponse { dptr: made };
        of_made.law_whole();
        if backend::makes::<CudaMemState, CudaState>(CudaState::empty(), past, i, h) {
            assert(handles::same_object(made, h));
        }
        if exists|g: proto::Handle| #[trigger]
            handles::same_object(g, h) && backend::run_answer(
                CudaState::empty(),
                past.take(i),
                past[i],
            ) == Answer::Ok((cuda::MemAllocResponse { dptr: g }).bytes()) {
            let g = choose|g: proto::Handle| #[trigger]
                handles::same_object(g, h) && backend::run_answer(
                    CudaState::empty(),
                    past.take(i),
                    past[i],
                ) == Answer::Ok((cuda::MemAllocResponse { dptr: g }).bytes());
            let of_g = cuda::MemAllocResponse { dptr: g };
            of_g.law_whole();
        }
    }
}

/// No two [`cuda_op::MEM_ALLOC`] calls are answered with handles of the same slot
/// and generation, and each handle is of its kind.
pub proof fn law_mem_alloc_issues_once(
    past: Seq<Call>,
    i: int,
    j: int,
    g: proto::Handle,
    h: proto::Handle,
)
    requires
        0 <= i < j < past.len(),
        past[i].opcode == cuda_op::MEM_ALLOC,
        past[j].opcode == cuda_op::MEM_ALLOC,
        backend::run_answer(CudaState::empty(), past.take(i), past[i]) == Answer::Ok(
            (cuda::MemAllocResponse { dptr: g }).bytes(),
        ),
        backend::run_answer(CudaState::empty(), past.take(j), past[j]) == Answer::Ok(
            (cuda::MemAllocResponse { dptr: h }).bytes(),
        ),
        backend::run_state(CudaState::empty(), past).allocations.slots.len() <= 0x1_0000_0000,
    ensures
        !handles::same_object(g, h),
        g.spec_kind() == KIND_CUDA_DEVICE_PTR,
        h.spec_kind() == KIND_CUDA_DEVICE_PTR,
{
    let empty = CudaState::empty();
    let s = backend::run_state(empty, past.take(i));
    let t = backend::run_state(empty, past.take(j));
    backend::law_answer_of_state(empty, past.take(i), past[i]);
    backend::law_answer_of_state(empty, past.take(j), past[j]);
    let of_g = cuda::MemAllocResponse { dptr: g };
    of_g.law_whole();
    let of_h = cuda::MemAllocResponse { dptr: h };
    of_h.law_whole();
    let made_i = s.allocations.next_handle(KIND_CUDA_DEVICE_PTR);
    let of_made_i = cuda::MemAllocResponse { dptr: made_i };
    of_made_i.law_whole();
    let made_j = t.allocations.next_handle(KIND_CUDA_DEVICE_PTR);
    let of_made_j = cuda::MemAllocResponse { dptr: made_j };
    of_made_j.law_whole();
    backend::law_made_once::<CudaMemState, CudaState>(empty, past, i, j, KIND_CUDA_DEVICE_PTR);
}

/// A [`cuda_op::MEM_ALLOC`] is answered if and only if the context it names was
/// made by an earlier call; else it is refused.
pub proof fn law_mem_alloc_iff_live(past: Seq<Call>, call: Call)
    requires
        call.opcode == cuda_op::MEM_ALLOC,
        cuda::MemAllocRequest::parse(call.body) is Ok,
        backend::run_state(CudaState::empty(), past).contexts.slots.len() <= 0x1_0000_0000,
    ensures
        ({
            let h = cuda::MemAllocRequest::parse(call.body)->Ok_0.context;
            if backend::is_live::<CudaCtxState, CudaState>(CudaState::empty(), past, h) {
                backend::run_answer(CudaState::empty(), past, call) == Answer::Ok(
                    (cuda::MemAllocResponse {
                        dptr: backend::run_state(
                            CudaState::empty(),
                            past,
                        ).allocations.next_handle(KIND_CUDA_DEVICE_PTR),
                    }).bytes(),
                )
            } else {
                backend::run_answer(CudaState::empty(), past, call) == Answer::Err(
                    proto::ProtocolError::UnknownOpcode(call.opcode),
                )
            }
        }),
{
    let h = cuda::MemAllocRequest::parse(call.body)->Ok_0.context;
    backend::law_live_is_history::<CudaCtxState, CudaState>(CudaState::empty(), past, h);
    backend::law_answer_of_state(CudaState::empty(), past, call);
}

/// A [`cuda_op::MEM_FREE`] is answered if and only if the allocation it names was
/// made by an earlier call and not taken away since; else it is refused.
pub proof fn law_mem_free_iff_live(past: Seq<Call>, call: Call)
    requires
        call.opcode == cuda_op::MEM_FREE,
        cuda::MemFreeRequest::parse(call.body) is Ok,
        backend::run_state(CudaState::empty(), past).allocations.slots.len() <= 0x1_0000_0000,
    ensures
        ({
            let h = cuda::MemFreeRequest::parse(call.body)->Ok_0.dptr;
            if backend::is_live::<CudaMemState, CudaState>(CudaState::empty(), past, h) {
                backend::run_answer(CudaState::empty(), past, call) == Answer::Ok(seq![])
            } else {
                backend::run_answer(CudaState::empty(), past, call) == Answer::Err(
                    proto::ProtocolError::UnknownOpcode(call.opcode),
                )
            }
        }),
{
    let h = cuda::MemFreeRequest::parse(call.body)->Ok_0.dptr;
    backend::law_live_is_history::<CudaMemState, CudaState>(CudaState::empty(), past, h);
    backend::law_answer_of_state(CudaState::empty(), past, call);
}

/// What [`cuda_op::CTX_CREATE`] hands out can be used for [`cuda_op::MEM_ALLOC`],
/// whatever calls come between.
pub proof fn law_ctx_create_then_mem_alloc(
    s: CudaState,
    make: Call,
    past: Seq<Call>,
    call: Call,
)
    requires
        s.ok(),
        s.contexts.free.len() > 0 || s.contexts.slots.len() < 0x1_0000_0000,
        make.opcode == cuda_op::CTX_CREATE,
        cuda::CtxCreateRequest::parse(make.body) is Ok,
        call.opcode == cuda_op::MEM_ALLOC,
        cuda::MemAllocRequest::parse(call.body) matches Ok(req) && handles::same_object(
            req.context,
            s.contexts.next_handle(KIND_CUDA_CONTEXT),
        ),
    ensures
        s.step(make).1 == Answer::Ok(
            (cuda::CtxCreateResponse {
                context: s.contexts.next_handle(KIND_CUDA_CONTEXT),
            }).bytes(),
        ),
        backend::run_answer(s.step(make).0, past, call) == Answer::Ok(
            (cuda::MemAllocResponse {
                dptr: backend::run_state(
                    s.step(make).0,
                    past,
                ).allocations.next_handle(KIND_CUDA_DEVICE_PTR),
            }).bytes(),
        ),
{
    let req = cuda::CtxCreateRequest::parse(make.body)->Ok_0;
    handles::law_insert_resolves(
        s.contexts,
        KIND_CUDA_CONTEXT,
        CudaCtxState { device_ordinal: req.device_ordinal },
    );
    let h = s.contexts.next_handle(KIND_CUDA_CONTEXT);
    let after = s.step(make).0;
    s.law_step_keeps(make);
    backend::law_answer_of_state(after, past, call);
    assert forall|j: int| !(#[trigger] backend::takes::<CudaCtxState, CudaState>(
        after,
        past,
        j,
        h,
    )) by {
    }
    backend::law_stays_live::<CudaCtxState, CudaState>(after, past, h);
}

/// What [`cuda_op::MEM_ALLOC`] hands out can be used for [`cuda_op::MEM_FREE`],
/// whatever calls come between that do not take it away.
pub proof fn law_mem_alloc_then_mem_free(
    s: CudaState,
    make: Call,
    past: Seq<Call>,
    call: Call,
)
    requires
        s.ok(),
        s.allocations.free.len() > 0 || s.allocations.slots.len() < 0x1_0000_0000,
        make.opcode == cuda_op::MEM_ALLOC,
        cuda::MemAllocRequest::parse(make.body) matches Ok(req)
            && s.contexts.lookup(req.context) is Some,
        call.opcode == cuda_op::MEM_FREE,
        cuda::MemFreeRequest::parse(call.body) matches Ok(req) && handles::same_object(
            req.dptr,
            s.allocations.next_handle(KIND_CUDA_DEVICE_PTR),
        ),
        forall|j: int| 0 <= j < past.len() ==> !is_mem_free(
            #[trigger] past[j],
            s.allocations.next_handle(KIND_CUDA_DEVICE_PTR),
        ),
    ensures
        s.step(make).1 == Answer::Ok(
            (cuda::MemAllocResponse {
                dptr: s.allocations.next_handle(KIND_CUDA_DEVICE_PTR),
            }).bytes(),
        ),
        backend::run_answer(s.step(make).0, past, call) == Answer::Ok(seq![]),
{
    let req = cuda::MemAllocRequest::parse(make.body)->Ok_0;
    handles::law_insert_resolves(
        s.allocations,
        KIND_CUDA_DEVICE_PTR,
        CudaMemState { context: req.context, size: req.size },
    );
    let h = s.allocations.next_handle(KIND_CUDA_DEVICE_PTR);
    let after = s.step(make).0;
    s.law_step_keeps(make);
    backend::law_answer_of_state(after, past, call);
    assert forall|j: int| !(#[trigger] backend::takes::<CudaMemState, CudaState>(
        after,
        past,
        j,
        h,
    )) by {
        if 0 <= j < past.len() {
            assert(!is_mem_free(past[j], h));
        }
    }
    backend::law_stays_live::<CudaMemState, CudaState>(after, past, h);
}

/// What a [`cuda_op::MEM_FREE`] has taken away stays away: a call that names the
/// same object is refused afterwards, whatever calls come between.
pub proof fn law_mem_free_is_final(
    s: CudaState,
    h: proto::Handle,
    past: Seq<Call>,
    call: Call,
    again: Call,
)
    requires
        s.ok(),
        s.allocations.lookup(h) is Some,
        is_mem_free(call, h),
        is_mem_free(again, h),
    ensures
        s.step(call).1 == Answer::Ok(seq![]),
        backend::run_answer(s.step(call).0, past, again)
            == Answer::Err(proto::ProtocolError::UnknownOpcode(again.opcode)),
{
    s.law_step_keeps(call);
    backend::law_answer_of_state(s.step(call).0, past, again);
    backend::law_gone_stays_gone::<CudaMemState, CudaState>(s.step(call).0, past, h);
}

/// A [`cuda_op::CTX_CREATE`] is always answered, whatever calls came before and
/// whatever bytes follow the request, with a handle of its kind. As long as a slot
/// index is left, the handle names a context that was not there before and that
/// holds what was asked for; nothing else changes.
pub proof fn law_ctx_create_answered(
    s: CudaState,
    req: cuda::CtxCreateRequest,
    rest: Seq<u8>,
    req_id: u32,
) -> (h: proto::Handle)
    ensures
        ({
            let call = Call { opcode: cuda_op::CTX_CREATE, req_id, body: req.bytes() + rest };
            let (after, answer) = s.step(call);
            &&& answer == Answer::Ok((cuda::CtxCreateResponse { context: h }).bytes())
            &&& h.spec_kind() == KIND_CUDA_CONTEXT
            &&& s.ok() && (s.contexts.free.len() > 0 || s.contexts.slots.len()
                < 0x1_0000_0000) ==> {
                &&& s.contexts.lookup(h) is None
                &&& after.contexts.lookup(h) == Some(
                    CudaCtxState { device_ordinal: req.device_ordinal },
                )
                &&& forall|g: proto::Handle|
                    !handles::same_object(g, h) ==> #[trigger] after.contexts.lookup(g)
                        == s.contexts.lookup(g)
            }
            &&& after.allocations == s.allocations
        }),
{
    req.law_round_trip(rest);
    handles::law_insert_issues(
        s.contexts,
        KIND_CUDA_CONTEXT,
        CudaCtxState { device_ordinal: req.device_ordinal },
    );
    s.contexts.next_handle(KIND_CUDA_CONTEXT)
}

/// A [`cuda_op::MEM_ALLOC`] that names a live context is always answered, whatever
/// calls came before and whatever bytes follow the request, with a handle of its
/// kind. As long as a slot index is left, the handle names an allocation that was
/// not there before and that holds what was asked for; nothing else changes.
pub proof fn law_mem_alloc_answered(
    s: CudaState,
    req: cuda::MemAllocRequest,
    rest: Seq<u8>,
    req_id: u32,
) -> (h: proto::Handle)
    requires
        s.contexts.lookup(req.context) is Some,
    ensures
        ({
            let call = Call { opcode: cuda_op::MEM_ALLOC, req_id, body: req.bytes() + rest };
            let (after, answer) = s.step(call);
            &&& answer == Answer::Ok((cuda::MemAllocResponse { dptr: h }).bytes())
            &&& h.spec_kind() == KIND_CUDA_DEVICE_PTR
            &&& s.ok() && (s.allocations.free.len() > 0 || s.allocations.slots.len()
                < 0x1_0000_0000) ==> {
                &&& s.allocations.lookup(h) is None
                &&& after.allocations.lookup(h) == Some(
                    CudaMemState { context: req.context, size: req.size },
                )
                &&& forall|g: proto::Handle|
                    !handles::same_object(g, h) ==> #[trigger] after.allocations.lookup(g)
                        == s.allocations.lookup(g)
            }
            &&& after.contexts == s.contexts
        }),
{
    req.law_round_trip(rest);
    handles::law_insert_issues(
        s.allocations,
        KIND_CUDA_DEVICE_PTR,
        CudaMemState { context: req.context, size: req.size },
    );
    s.allocations.next_handle(KIND_CUDA_DEVICE_PTR)
}

/// A [`cuda_op::MEM_ALLOC`] that names no live context is refused by its opcode,
/// and changes nothing.
pub proof fn law_mem_alloc_needs_context(
    s: CudaState,
    req: cuda::MemAllocRequest,
    rest: Seq<u8>,
    req_id: u32,
)
    requires
        s.contexts.lookup(req.context) is None,
    ensures
        s.step(Call { opcode: cuda_op::MEM_ALLOC, req_id, body: req.bytes() + rest }) == (
            s,
            Answer::Err(proto::ProtocolError::UnknownOpcode(cuda_op::MEM_ALLOC)),
        ),
{
    req.law_round_trip(rest);
}

/// A [`cuda_op::MEM_FREE`] takes away the allocation it names, and nothing else,
/// and is acknowledged with an empty body; where there is no such allocation it is
/// refused by its opcode and nothing changes. What follows the request plays no
/// part.
pub proof fn law_mem_free_takes_one(
    s: CudaState,
    req: cuda::MemFreeRequest,
    rest: Seq<u8>,
    req_id: u32,
)
    ensures
        ({
            let call = Call { opcode: cuda_op::MEM_FREE, req_id, body: req.bytes() + rest };
            let (after, answer) = s.step(call);
            &&& s.allocations.lookup(req.dptr) is Some ==> {
                &&& answer == Answer::Ok(seq![])
                &&& forall|g: proto::Handle|
                    handles::same_object(g, req.dptr) ==> #[trigger] after.allocations.lookup(
                        g,
                    ) is None
            }
            &&& s.allocations.lookup(req.dptr) is None ==> {
                &&& answer == Answer::Err(
                    proto::ProtocolError::UnknownOpcode(cuda_op::MEM_FREE),
                )
                &&& after == s
            }
            &&& forall|g: proto::Handle|
                !handles::same_object(g, req.dptr) ==> #[trigger] after.allocations.lookup(g)
                    == s.allocations.lookup(g)
            &&& after.contexts == s.contexts
        }),
{
    req.law_round_trip(rest);
    handles::law_remove_takes_one(s.allocations, req.dptr);
}

/// A call whose body is too short for its request is refused as an unexpected end,
/// and changes nothing.
pub proof fn law_short_bodies_refused(s: CudaState, call: Call)
    requires
        ({
            ||| call.opcode == cuda_op::CTX_CREATE && call.body.len() < 4
            ||| call.opcode == cuda_op::MEM_ALLOC && call.body.len() < 16
            ||| call.opcode == cuda_op::MEM_FREE && call.body.len() < 8
        }),
    ensures
        s.step(call) == (s, Answer::Err(proto::ProtocolError::UnexpectedEof)),
{
}

/// Only calls of the backend's own namespace are answered. Every other opcode, of
/// the namespace or not, is refused by that opcode, whatever its body holds, and
/// changes nothing.
pub proof fn law_other_calls_refused(s: CudaState, call: Call)
    ensures
        s.step(call).1 is Ok ==> call.opcode / 0x100_0000 == proto::ApiId::Cuda.byte(),
        ({
            &&& call.opcode != cuda_op::CTX_CREATE
            &&& call.opcode != cuda_op::MEM_ALLOC
            &&& call.opcode != cuda_op::MEM_FREE
        }) ==> s.step(call) == (
            s,
            Answer::Err(proto::ProtocolError::UnknownOpcode(call.opcode)),
        ),
{
}

/// A new backend serves the namespace of its API, and holds nothing that a handle
/// resolves to.
pub proof fn law_new_backend(
    backend: CudaBackend,
    reader: &CudaBackend,
    api: proto::ApiId,
    h: proto::Handle,
)
    requires
        call_ensures(CudaBackend::new, (), backend),
        call_ensures(<CudaBackend as Backend>::api, (reader,), api),
    ensures
        api == proto::ApiId::Cuda,
        api.byte() == 3,
        backend.inv(),
        backend@.contexts.lookup(h) is None,
        backend@.allocations.lookup(h) is None,
{
}

} // verus!
