//! OptiX backend dispatch.
//!
//! The [`Session`](crate::server::Session) routes any OptiX-namespace opcode to this
//! backend. Like the Vulkan, OpenGL, CUDA, HIP, OpenCL, and Level Zero
//! backends, the OptiX backend is a pure-Rust **stub**: it tracks object
//! lifetimes in generational handle tables but performs no real driver work. No
//! OptiX SDK, GPU, or FFI dependency is involved.
use vstd::prelude::*;

use super::backend;
use super::backend::{Answer, Backend, Call, Keeps, Machine};
use crate::handles;
use crate::handles::{HandleTable, TableOp, TableState};
use crate::protocol as proto;
use crate::protocol::optix;
use crate::protocol::optix_op;
use crate::protocol::wire::Wire;

verus! {

broadcast use crate::protocol::bytes::lemma_append_to_empty;

/// Server object kind for an OptiX device-context handle.
pub const KIND_OPTIX_CONTEXT: u8 = 80;

/// Server object kind for an OptiX ray-tracing pipeline handle.
pub const KIND_OPTIX_PIPELINE: u8 = 81;

/// Server-side state tracked for one created OptiX device context.
#[derive(Debug)]
pub struct OptixCtxState {
    /// Marks the context as live; reserved for future per-context state.
    pub created: bool,
}

/// Server-side state tracked for one created OptiX ray-tracing pipeline.
#[derive(Debug)]
pub struct OptixPipelineState {
    /// The context handle this pipeline was created in. Recorded
    /// for lifetime and ownership checks.
    pub context: proto::Handle,
}

/// Pure-Rust OptiX backend stub.
///
/// Owns generational handle tables for the OptiX objects it tracks. It answers
/// [`optix_op::CONTEXT_CREATE`](proto::optix_op::CONTEXT_CREATE) by minting a
/// context handle, [`optix_op::PIPELINE_CREATE`](proto::optix_op::PIPELINE_CREATE)
/// by minting a pipeline handle parented to a known context, and
/// [`optix_op::DESTROY`](proto::optix_op::DESTROY) by removing a known context
/// or pipeline handle and acknowledging with an empty body. The real driver
/// bridge lands later; every other OptiX call is reported as
/// not-yet-implemented via
/// [`ProtocolError::UnknownOpcode`](proto::ProtocolError::UnknownOpcode).
pub struct OptixBackend {
    /// The device contexts.
    pub contexts: HandleTable<OptixCtxState>,
    /// The pipelines.
    pub pipelines: HandleTable<OptixPipelineState>,
}

/// What the OptiX backend holds.
pub ghost struct OptixState {
    /// The device contexts.
    pub contexts: TableState<OptixCtxState>,
    /// The pipelines.
    pub pipelines: TableState<OptixPipelineState>,
}

impl OptixState {
    /// The state without objects.
    pub open spec fn empty() -> Self {
        OptixState { contexts: TableState::empty(), pipelines: TableState::empty() }
    }
}

impl Machine for OptixState {
    open spec fn ok(self) -> bool {
        &&& self.contexts.inv()
        &&& self.pipelines.inv()
    }

    open spec fn step(self, call: Call) -> (Self, Answer) {
        let unknown: (Self, Answer) = (self, Err(proto::ProtocolError::UnknownOpcode(call.opcode)));
        if call.opcode == optix_op::CONTEXT_CREATE {
            (
                OptixState {
                    contexts: self.contexts.inserted(OptixCtxState { created: true }),
                    ..self
                },
                Ok(
                    (optix::ContextCreateResponse {
                        context: self.contexts.next_handle(KIND_OPTIX_CONTEXT),
                    }).bytes(),
                ),
            )
        } else if call.opcode == optix_op::PIPELINE_CREATE {
            match optix::PipelineCreateRequest::parse(call.body) {
                Err(e) => (self, Err(e)),
                Ok(req) => if self.contexts.lookup(req.context) is Some {
                    (
                        OptixState {
                            pipelines: self.pipelines.inserted(
                                OptixPipelineState { context: req.context },
                            ),
                            ..self
                        },
                        Ok(
                            (optix::PipelineCreateResponse {
                                pipeline: self.pipelines.next_handle(KIND_OPTIX_PIPELINE),
                            }).bytes(),
                        ),
                    )
                } else {
                    unknown
                },
            }
        } else if call.opcode == optix_op::DESTROY {
            match optix::DestroyRequest::parse(call.body) {
                Err(e) => (self, Err(e)),
                Ok(req) => if req.handle.spec_kind() == KIND_OPTIX_PIPELINE
                    && self.pipelines.lookup(req.handle) is Some {
                    (
                        OptixState { pipelines: self.pipelines.removed(req.handle), ..self },
                        Ok(seq![]),
                    )
                } else if req.handle.spec_kind() == KIND_OPTIX_CONTEXT
                    && self.contexts.lookup(req.handle) is Some {
                    (OptixState { contexts: self.contexts.removed(req.handle), ..self }, Ok(seq![]))
                } else {
                    unknown
                },
            }
        } else {
            unknown
        }
    }

    proof fn law_step_keeps(self, call: Call) {
        crate::handles::law_table_keeps(self.contexts);
        crate::handles::law_table_keeps(self.pipelines);
    }

    proof fn law_refusal_changes_nothing(self, call: Call) {
    }

    proof fn law_req_id_plays_no_part(self, call: Call, req_id: u32) {
    }
}

impl View for OptixBackend {
    type V = OptixState;

    open spec fn view(&self) -> OptixState {
        OptixState { contexts: self.contexts@, pipelines: self.pipelines@ }
    }
}

impl OptixBackend {
    /// Create a new OptiX backend stub with empty object tables.
    #[must_use]
    pub fn new() -> (backend: Self)
        ensures
            backend.inv(),
            backend@ == OptixState::empty(),
    {
        Self { contexts: HandleTable::new(), pipelines: HandleTable::new() }
    }
}

impl Default for OptixBackend {
    fn default() -> (backend: Self)
        ensures
            backend.inv(),
            backend@ == OptixState::empty(),
    {
        Self::new()
    }
}

impl Backend for OptixBackend {
    open spec fn inv(&self) -> bool {
        &&& self.contexts.wf()
        &&& self.pipelines.wf()
    }

    open spec fn spec_api(&self) -> proto::ApiId {
        proto::ApiId::OptiX
    }

    open spec fn answer(&self, past: Seq<Call>, call: Call) -> Answer {
        super::backend::run_answer(self@, past, call)
    }

    fn api(&self) -> (api: proto::ApiId) {
        proto::ApiId::OptiX
    }

    fn handle(
        &mut self,
        opcode: u32,
        req_id: u32,
        body: &[u8],
    ) -> (r: Result<Vec<u8>, proto::ProtocolError>)
        ensures
            (final(self)@, super::backend::answer_of(r)) == old(self)@.step(
                Call { opcode, req_id, body: body@ },
            ),
    {
        proof {
            super::backend::law_step_then_answer(self@, Call { opcode, req_id, body: body@ });
        }
        // Reject anything outside the OptiX namespace outright.
        if proto::opcode_api(opcode) != proto::ApiId::OptiX.to_byte() {
            return Err(proto::ProtocolError::UnknownOpcode(opcode));
        }
        match opcode {
            optix_op::CONTEXT_CREATE => {
                // The request body is empty, so there is nothing to decode.
                let context = self.contexts.insert(
                    KIND_OPTIX_CONTEXT,
                    OptixCtxState { created: true },
                );
                let mut out: Vec<u8> = Vec::new();
                (optix::ContextCreateResponse { context }).encode(&mut out);
                Ok(out)
            },
            optix_op::PIPELINE_CREATE => {
                let req = optix::PipelineCreateRequest::decode(body)?;
                // The context must have been created on this backend.
                if self.contexts.get(req.context).is_none() {
                    return Err(proto::ProtocolError::UnknownOpcode(opcode));
                }
                let pipeline = self.pipelines.insert(
                    KIND_OPTIX_PIPELINE,
                    OptixPipelineState { context: req.context },
                );
                let mut out: Vec<u8> = Vec::new();
                (optix::PipelineCreateResponse { pipeline }).encode(&mut out);
                Ok(out)
            },
            optix_op::DESTROY => {
                let req = optix::DestroyRequest::decode(body)?;
                // A destroy targets either a context or a pipeline: the kind in
                // the handle says which. Removing the handle both validates and
                // frees it. An unknown handle is an error.
                let kind: u8 = req.handle.kind();
                let destroyed: bool = if kind == KIND_OPTIX_PIPELINE {
                    self.pipelines.remove(req.handle).is_some()
                } else if kind == KIND_OPTIX_CONTEXT {
                    self.contexts.remove(req.handle).is_some()
                } else {
                    false
                };
                if destroyed {
                    // Acknowledge with an empty body.
                    Ok(Vec::new())
                } else {
                    Err(proto::ProtocolError::UnknownOpcode(opcode))
                }
            },
            // Everything else in the OptiX namespace is not implemented yet.
            other => Err(proto::ProtocolError::UnknownOpcode(other)),
        }
    }
}

impl Keeps<OptixCtxState> for OptixState {
    open spec fn table(self) -> TableState<OptixCtxState> {
        self.contexts
    }

    open spec fn op(self, call: Call) -> TableOp<OptixCtxState> {
        if call.opcode == optix_op::CONTEXT_CREATE {
            TableOp::Insert(OptixCtxState { created: true })
        } else if call.opcode == optix_op::DESTROY {
            match optix::DestroyRequest::parse(call.body) {
                Ok(req) => if req.handle.spec_kind() == KIND_OPTIX_CONTEXT {
                    TableOp::Remove(req.handle)
                } else {
                    TableOp::Read
                },
                Err(_) => TableOp::Read,
            }
        } else {
            TableOp::Read
        }
    }

    proof fn law_call_is_op(self, call: Call) {
    }
}

impl Keeps<OptixPipelineState> for OptixState {
    open spec fn table(self) -> TableState<OptixPipelineState> {
        self.pipelines
    }

    open spec fn op(self, call: Call) -> TableOp<OptixPipelineState> {
        if call.opcode == optix_op::PIPELINE_CREATE {
            match optix::PipelineCreateRequest::parse(call.body) {
                Ok(req) => if self.contexts.lookup(req.context) is Some {
                    TableOp::Insert(OptixPipelineState { context: req.context })
                } else {
                    TableOp::Read
                },
                Err(_) => TableOp::Read,
            }
        } else if call.opcode == optix_op::DESTROY {
            match optix::DestroyRequest::parse(call.body) {
                Ok(req) => if req.handle.spec_kind() == KIND_OPTIX_PIPELINE {
                    TableOp::Remove(req.handle)
                } else {
                    TableOp::Read
                },
                Err(_) => TableOp::Read,
            }
        } else {
            TableOp::Read
        }
    }

    proof fn law_call_is_op(self, call: Call) {
    }
}

/// Whether `call` is a [`optix_op::DESTROY`] that names the object of `h` among the
/// contexts.
pub open spec fn is_context_destroy(call: Call, h: proto::Handle) -> bool {
    &&& call.opcode == optix_op::DESTROY
    &&& optix::DestroyRequest::parse(call.body) matches Ok(req)
    &&& req.handle.spec_kind() == KIND_OPTIX_CONTEXT
    &&& handles::same_object(req.handle, h)
}

/// Whether `call` is a [`optix_op::DESTROY`] that names the object of `h` among the
/// pipelines.
pub open spec fn is_pipeline_destroy(call: Call, h: proto::Handle) -> bool {
    &&& call.opcode == optix_op::DESTROY
    &&& optix::DestroyRequest::parse(call.body) matches Ok(req)
    &&& req.handle.spec_kind() == KIND_OPTIX_PIPELINE
    &&& handles::same_object(req.handle, h)
}

/// The history of the contexts: a call has made the object of a handle if and only
/// if it was a [`optix_op::CONTEXT_CREATE`] answered with a handle of the same slot
/// and generation, and takes it away if and only if it is a [`optix_op::DESTROY`]
/// that names it.
pub proof fn law_contexts_history(past: Seq<Call>, i: int, h: proto::Handle)
    ensures
        backend::makes::<OptixCtxState, OptixState>(OptixState::empty(), past, i, h) <==> {
            &&& 0 <= i < past.len()
            &&& past[i].opcode == optix_op::CONTEXT_CREATE
            &&& exists|g: proto::Handle| #[trigger]
                handles::same_object(g, h) && backend::run_answer(
                    OptixState::empty(),
                    past.take(i),
                    past[i],
                ) == Answer::Ok((optix::ContextCreateResponse { context: g }).bytes())
        },
        backend::takes::<OptixCtxState, OptixState>(OptixState::empty(), past, i, h)
            <==> 0 <= i < past.len() && is_context_destroy(past[i], h),
{
    if 0 <= i < past.len() {
        let s = backend::run_state(OptixState::empty(), past.take(i));
        let made = s.contexts.next_handle(KIND_OPTIX_CONTEXT);
        backend::law_answer_of_state(OptixState::empty(), past.take(i), past[i]);
        handles::law_next_handle_kinds(s.contexts, 0, KIND_OPTIX_CONTEXT);
        let of_made = optix::ContextCreateResponse { context: made };
        of_made.law_whole();
        if backend::makes::<OptixCtxState, OptixState>(OptixState::empty(), past, i, h) {
            assert(handles::same_object(made, h));
        }
        if exists|g: proto::Handle| #[trigger]
            handles::same_object(g, h) && backend::run_answer(
                OptixState::empty(),
                past.take(i),
                past[i],
            ) == Answer::Ok((optix::ContextCreateResponse { context: g }).bytes()) {
            let g = choose|g: proto::Handle| #[trigger]
                handles::same_object(g, h) && backend::run_answer(
                    OptixState::empty(),
                    past.take(i),
                    past[i],
                ) == Answer::Ok((optix::ContextCreateResponse { context: g }).bytes());
            let of_g = optix::ContextCreateResponse { context: g };
            of_g.law_whole();
        }
    }
}

/// No two [`optix_op::CONTEXT_CREATE`] calls are answered with handles of the same
/// slot and generation, and each handle is of its kind.
pub proof fn law_context_create_issues_once(
    past: Seq<Call>,
    i: int,
    j: int,
    g: proto::Handle,
    h: proto::Handle,
)
    requires
        0 <= i < j < past.len(),
        past[i].opcode == optix_op::CONTEXT_CREATE,
        past[j].opcode == optix_op::CONTEXT_CREATE,
        backend::run_answer(OptixState::empty(), past.take(i), past[i]) == Answer::Ok(
            (optix::ContextCreateResponse { context: g }).bytes(),
        ),
        backend::run_answer(OptixState::empty(), past.take(j), past[j]) == Answer::Ok(
            (optix::ContextCreateResponse { context: h }).bytes(),
        ),
        backend::run_state(OptixState::empty(), past).contexts.slots.len() <= 0x1_0000_0000,
    ensures
        !handles::same_object(g, h),
        g.spec_kind() == KIND_OPTIX_CONTEXT,
        h.spec_kind() == KIND_OPTIX_CONTEXT,
{
    let empty = OptixState::empty();
    let s = backend::run_state(empty, past.take(i));
    let t = backend::run_state(empty, past.take(j));
    backend::law_answer_of_state(empty, past.take(i), past[i]);
    backend::law_answer_of_state(empty, past.take(j), past[j]);
    let of_g = optix::ContextCreateResponse { context: g };
    of_g.law_whole();
    let of_h = optix::ContextCreateResponse { context: h };
    of_h.law_whole();
    let made_i = s.contexts.next_handle(KIND_OPTIX_CONTEXT);
    let of_made_i = optix::ContextCreateResponse { context: made_i };
    of_made_i.law_whole();
    let made_j = t.contexts.next_handle(KIND_OPTIX_CONTEXT);
    let of_made_j = optix::ContextCreateResponse { context: made_j };
    of_made_j.law_whole();
    backend::law_made_once::<OptixCtxState, OptixState>(empty, past, i, j, KIND_OPTIX_CONTEXT);
}

/// The history of the pipelines: a call has made the object of a handle if and only
/// if it was a [`optix_op::PIPELINE_CREATE`] answered with a handle of the same
/// slot and generation, and takes it away if and only if it is a
/// [`optix_op::DESTROY`] that names it.
pub proof fn law_pipelines_history(past: Seq<Call>, i: int, h: proto::Handle)
    ensures
        backend::makes::<OptixPipelineState, OptixState>(OptixState::empty(), past, i, h) <==> {
            &&& 0 <= i < past.len()
            &&& past[i].opcode == optix_op::PIPELINE_CREATE
            &&& exists|g: proto::Handle| #[trigger]
                handles::same_object(g, h) && backend::run_answer(
                    OptixState::empty(),
                    past.take(i),
                    past[i],
                ) == Answer::Ok((optix::PipelineCreateResponse { pipeline: g }).bytes())
        },
        backend::takes::<OptixPipelineState, OptixState>(OptixState::empty(), past, i, h)
            <==> 0 <= i < past.len() && is_pipeline_destroy(past[i], h),
{
    if 0 <= i < past.len() {
        let s = backend::run_state(OptixState::empty(), past.take(i));
        let made = s.pipelines.next_handle(KIND_OPTIX_PIPELINE);
        backend::law_answer_of_state(OptixState::empty(), past.take(i), past[i]);
        handles::law_next_handle_kinds(s.pipelines, 0, KIND_OPTIX_PIPELINE);
        let of_made = optix::PipelineCreateResponse { pipeline: made };
        of_made.law_whole();
        if backend::makes::<OptixPipelineState, OptixState>(OptixState::empty(), past, i, h) {
            assert(handles::same_object(made, h));
        }
        if exists|g: proto::Handle| #[trigger]
            handles::same_object(g, h) && backend::run_answer(
                OptixState::empty(),
                past.take(i),
                past[i],
            ) == Answer::Ok((optix::PipelineCreateResponse { pipeline: g }).bytes()) {
            let g = choose|g: proto::Handle| #[trigger]
                handles::same_object(g, h) && backend::run_answer(
                    OptixState::empty(),
                    past.take(i),
                    past[i],
                ) == Answer::Ok((optix::PipelineCreateResponse { pipeline: g }).bytes());
            let of_g = optix::PipelineCreateResponse { pipeline: g };
            of_g.law_whole();
        }
    }
}

/// No two [`optix_op::PIPELINE_CREATE`] calls are answered with handles of the same
/// slot and generation, and each handle is of its kind.
pub proof fn law_pipeline_create_issues_once(
    past: Seq<Call>,
    i: int,
    j: int,
    g: proto::Handle,
    h: proto::Handle,
)
    requires
        0 <= i < j < past.len(),
        past[i].opcode == optix_op::PIPELINE_CREATE,
        past[j].opcode == optix_op::PIPELINE_CREATE,
        backend::run_answer(OptixState::empty(), past.take(i), past[i]) == Answer::Ok(
            (optix::PipelineCreateResponse { pipeline: g }).bytes(),
        ),
        backend::run_answer(OptixState::empty(), past.take(j), past[j]) == Answer::Ok(
            (optix::PipelineCreateResponse { pipeline: h }).bytes(),
        ),
        backend::run_state(OptixState::empty(), past).pipelines.slots.len() <= 0x1_0000_0000,
    ensures
        !handles::same_object(g, h),
        g.spec_kind() == KIND_OPTIX_PIPELINE,
        h.spec_kind() == KIND_OPTIX_PIPELINE,
{
    let empty = OptixState::empty();
    let s = backend::run_state(empty, past.take(i));
    let t = backend::run_state(empty, past.take(j));
    backend::law_answer_of_state(empty, past.take(i), past[i]);
    backend::law_answer_of_state(empty, past.take(j), past[j]);
    let of_g = optix::PipelineCreateResponse { pipeline: g };
    of_g.law_whole();
    let of_h = optix::PipelineCreateResponse { pipeline: h };
    of_h.law_whole();
    let made_i = s.pipelines.next_handle(KIND_OPTIX_PIPELINE);
    let of_made_i = optix::PipelineCreateResponse { pipeline: made_i };
    of_made_i.law_whole();
    let made_j = t.pipelines.next_handle(KIND_OPTIX_PIPELINE);
    let of_made_j = optix::PipelineCreateResponse { pipeline: made_j };
    of_made_j.law_whole();
    backend::law_made_once::<OptixPipelineState, OptixState>(
        empty,
        past,
        i,
        j,
        KIND_OPTIX_PIPELINE,
    );
}

/// A [`optix_op::PIPELINE_CREATE`] is answered if and only if the context it names
/// was made by an earlier call and not taken away since; else it is refused.
pub proof fn law_pipeline_create_iff_live(past: Seq<Call>, call: Call)
    requires
        call.opcode == optix_op::PIPELINE_CREATE,
        optix::PipelineCreateRequest::parse(call.body) is Ok,
        backend::run_state(OptixState::empty(), past).contexts.slots.len() <= 0x1_0000_0000,
    ensures
        ({
            let h = optix::PipelineCreateRequest::parse(call.body)->Ok_0.context;
            if backend::is_live::<OptixCtxState, OptixState>(OptixState::empty(), past, h) {
                backend::run_answer(OptixState::empty(), past, call) == Answer::Ok(
                    (optix::PipelineCreateResponse {
                        pipeline: backend::run_state(
                            OptixState::empty(),
                            past,
                        ).pipelines.next_handle(KIND_OPTIX_PIPELINE),
                    }).bytes(),
                )
            } else {
                backend::run_answer(OptixState::empty(), past, call) == Answer::Err(
                    proto::ProtocolError::UnknownOpcode(call.opcode),
                )
            }
        }),
{
    let h = optix::PipelineCreateRequest::parse(call.body)->Ok_0.context;
    backend::law_live_is_history::<OptixCtxState, OptixState>(OptixState::empty(), past, h);
    backend::law_answer_of_state(OptixState::empty(), past, call);
}

/// A [`optix_op::DESTROY`] is answered if and only if the context it names was made
/// by an earlier call and not taken away since; else it is refused.
pub proof fn law_context_destroy_iff_live(past: Seq<Call>, call: Call)
    requires
        call.opcode == optix_op::DESTROY,
        optix::DestroyRequest::parse(call.body) matches Ok(req)
            && req.handle.spec_kind() == KIND_OPTIX_CONTEXT,
        backend::run_state(OptixState::empty(), past).contexts.slots.len() <= 0x1_0000_0000,
    ensures
        ({
            let h = optix::DestroyRequest::parse(call.body)->Ok_0.handle;
            if backend::is_live::<OptixCtxState, OptixState>(OptixState::empty(), past, h) {
                backend::run_answer(OptixState::empty(), past, call) == Answer::Ok(seq![])
            } else {
                backend::run_answer(OptixState::empty(), past, call) == Answer::Err(
                    proto::ProtocolError::UnknownOpcode(call.opcode),
                )
            }
        }),
{
    let h = optix::DestroyRequest::parse(call.body)->Ok_0.handle;
    backend::law_live_is_history::<OptixCtxState, OptixState>(OptixState::empty(), past, h);
    backend::law_answer_of_state(OptixState::empty(), past, call);
}

/// A [`optix_op::DESTROY`] is answered if and only if the pipeline it names was
/// made by an earlier call and not taken away since; else it is refused.
pub proof fn law_pipeline_destroy_iff_live(past: Seq<Call>, call: Call)
    requires
        call.opcode == optix_op::DESTROY,
        optix::DestroyRequest::parse(call.body) matches Ok(req)
            && req.handle.spec_kind() == KIND_OPTIX_PIPELINE,
        backend::run_state(OptixState::empty(), past).pipelines.slots.len() <= 0x1_0000_0000,
    ensures
        ({
            let h = optix::DestroyRequest::parse(call.body)->Ok_0.handle;
            if backend::is_live::<OptixPipelineState, OptixState>(OptixState::empty(), past, h) {
                backend::run_answer(OptixState::empty(), past, call) == Answer::Ok(seq![])
            } else {
                backend::run_answer(OptixState::empty(), past, call) == Answer::Err(
                    proto::ProtocolError::UnknownOpcode(call.opcode),
                )
            }
        }),
{
    let h = optix::DestroyRequest::parse(call.body)->Ok_0.handle;
    backend::law_live_is_history::<OptixPipelineState, OptixState>(OptixState::empty(), past, h);
    backend::law_answer_of_state(OptixState::empty(), past, call);
}

/// What [`optix_op::CONTEXT_CREATE`] hands out can be used for
/// [`optix_op::PIPELINE_CREATE`], whatever calls come between that do not take it
/// away.
pub proof fn law_context_create_then_pipeline_create(
    s: OptixState,
    make: Call,
    past: Seq<Call>,
    call: Call,
)
    requires
        s.ok(),
        s.contexts.free.len() > 0 || s.contexts.slots.len() < 0x1_0000_0000,
        make.opcode == optix_op::CONTEXT_CREATE,
        call.opcode == optix_op::PIPELINE_CREATE,
        optix::PipelineCreateRequest::parse(call.body) matches Ok(req) && handles::same_object(
            req.context,
            s.contexts.next_handle(KIND_OPTIX_CONTEXT),
        ),
        forall|j: int| 0 <= j < past.len() ==> !is_context_destroy(
            #[trigger] past[j],
            s.contexts.next_handle(KIND_OPTIX_CONTEXT),
        ),
    ensures
        s.step(make).1 == Answer::Ok(
            (optix::ContextCreateResponse {
                context: s.contexts.next_handle(KIND_OPTIX_CONTEXT),
            }).bytes(),
        ),
        backend::run_answer(s.step(make).0, past, call) == Answer::Ok(
            (optix::PipelineCreateResponse {
                pipeline: backend::run_state(
                    s.step(make).0,
                    past,
                ).pipelines.next_handle(KIND_OPTIX_PIPELINE),
            }).bytes(),
        ),
{
    handles::law_insert_resolves(
        s.contexts,
        KIND_OPTIX_CONTEXT,
        OptixCtxState { created: true },
    );
    let h = s.contexts.next_handle(KIND_OPTIX_CONTEXT);
    let after = s.step(make).0;
    s.law_step_keeps(make);
    backend::law_answer_of_state(after, past, call);
    assert forall|j: int| !(#[trigger] backend::takes::<OptixCtxState, OptixState>(
        after,
        past,
        j,
        h,
    )) by {
        if 0 <= j < past.len() {
            assert(!is_context_destroy(past[j], h));
        }
    }
    backend::law_stays_live::<OptixCtxState, OptixState>(after, past, h);
}

/// What [`optix_op::CONTEXT_CREATE`] hands out can be used for
/// [`optix_op::DESTROY`], whatever calls come between that do not take it away.
pub proof fn law_context_create_then_context_destroy(
    s: OptixState,
    make: Call,
    past: Seq<Call>,
    call: Call,
)
    requires
        s.ok(),
        s.contexts.free.len() > 0 || s.contexts.slots.len() < 0x1_0000_0000,
        make.opcode == optix_op::CONTEXT_CREATE,
        call.opcode == optix_op::DESTROY,
        optix::DestroyRequest::parse(call.body) matches Ok(req) && handles::same_object(
            req.handle,
            s.contexts.next_handle(KIND_OPTIX_CONTEXT),
        ) && req.handle.spec_kind() == KIND_OPTIX_CONTEXT,
        forall|j: int| 0 <= j < past.len() ==> !is_context_destroy(
            #[trigger] past[j],
            s.contexts.next_handle(KIND_OPTIX_CONTEXT),
        ),
    ensures
        s.step(make).1 == Answer::Ok(
            (optix::ContextCreateResponse {
                context: s.contexts.next_handle(KIND_OPTIX_CONTEXT),
            }).bytes(),
        ),
        backend::run_answer(s.step(make).0, past, call) == Answer::Ok(seq![]),
{
    handles::law_insert_resolves(
        s.contexts,
        KIND_OPTIX_CONTEXT,
        OptixCtxState { created: true },
    );
    let h = s.contexts.next_handle(KIND_OPTIX_CONTEXT);
    let after = s.step(make).0;
    s.law_step_keeps(make);
    backend::law_answer_of_state(after, past, call);
    assert forall|j: int| !(#[trigger] backend::takes::<OptixCtxState, OptixState>(
        after,
        past,
        j,
        h,
    )) by {
        if 0 <= j < past.len() {
            assert(!is_context_destroy(past[j], h));
        }
    }
    backend::law_stays_live::<OptixCtxState, OptixState>(after, past, h);
}

/// What [`optix_op::PIPELINE_CREATE`] hands out can be used for
/// [`optix_op::DESTROY`], whatever calls come between that do not take it away.
pub proof fn law_pipeline_create_then_pipeline_destroy(
    s: OptixState,
    make: Call,
    past: Seq<Call>,
    call: Call,
)
    requires
        s.ok(),
        s.pipelines.free.len() > 0 || s.pipelines.slots.len() < 0x1_0000_0000,
        make.opcode == optix_op::PIPELINE_CREATE,
        optix::PipelineCreateRequest::parse(make.body) matches Ok(req)
            && s.contexts.lookup(req.context) is Some,
        call.opcode == optix_op::DESTROY,
        optix::DestroyRequest::parse(call.body) matches Ok(req) && handles::same_object(
            req.handle,
            s.pipelines.next_handle(KIND_OPTIX_PIPELINE),
        ) && req.handle.spec_kind() == KIND_OPTIX_PIPELINE,
        forall|j: int| 0 <= j < past.len() ==> !is_pipeline_destroy(
            #[trigger] past[j],
            s.pipelines.next_handle(KIND_OPTIX_PIPELINE),
        ),
    ensures
        s.step(make).1 == Answer::Ok(
            (optix::PipelineCreateResponse {
                pipeline: s.pipelines.next_handle(KIND_OPTIX_PIPELINE),
            }).bytes(),
        ),
        backend::run_answer(s.step(make).0, past, call) == Answer::Ok(seq![]),
{
    let req = optix::PipelineCreateRequest::parse(make.body)->Ok_0;
    handles::law_insert_resolves(
        s.pipelines,
        KIND_OPTIX_PIPELINE,
        OptixPipelineState { context: req.context },
    );
    let h = s.pipelines.next_handle(KIND_OPTIX_PIPELINE);
    let after = s.step(make).0;
    s.law_step_keeps(make);
    backend::law_answer_of_state(after, past, call);
    assert forall|j: int| !(#[trigger] backend::takes::<OptixPipelineState, OptixState>(
        after,
        past,
        j,
        h,
    )) by {
        if 0 <= j < past.len() {
            assert(!is_pipeline_destroy(past[j], h));
        }
    }
    backend::law_stays_live::<OptixPipelineState, OptixState>(after, past, h);
}

/// What a [`optix_op::DESTROY`] has taken away stays away: a call that names the
/// same object is refused afterwards, whatever calls come between.
pub proof fn law_context_destroy_is_final(
    s: OptixState,
    h: proto::Handle,
    past: Seq<Call>,
    call: Call,
    again: Call,
)
    requires
        s.ok(),
        s.contexts.lookup(h) is Some,
        is_context_destroy(call, h),
        is_context_destroy(again, h),
    ensures
        s.step(call).1 == Answer::Ok(seq![]),
        backend::run_answer(s.step(call).0, past, again)
            == Answer::Err(proto::ProtocolError::UnknownOpcode(again.opcode)),
{
    s.law_step_keeps(call);
    backend::law_answer_of_state(s.step(call).0, past, again);
    backend::law_gone_stays_gone::<OptixCtxState, OptixState>(s.step(call).0, past, h);
}

/// What a [`optix_op::DESTROY`] has taken away stays away: a call that names the
/// same object is refused afterwards, whatever calls come between.
pub proof fn law_pipeline_destroy_is_final(
    s: OptixState,
    h: proto::Handle,
    past: Seq<Call>,
    call: Call,
    again: Call,
)
    requires
        s.ok(),
        s.pipelines.lookup(h) is Some,
        is_pipeline_destroy(call, h),
        is_pipeline_destroy(again, h),
    ensures
        s.step(call).1 == Answer::Ok(seq![]),
        backend::run_answer(s.step(call).0, past, again)
            == Answer::Err(proto::ProtocolError::UnknownOpcode(again.opcode)),
{
    s.law_step_keeps(call);
    backend::law_answer_of_state(s.step(call).0, past, again);
    backend::law_gone_stays_gone::<OptixPipelineState, OptixState>(s.step(call).0, past, h);
}

/// A [`optix_op::DESTROY`] goes by the kind in the handle: a handle of another kind
/// names nothing that could be destroyed.
pub proof fn law_destroy_goes_by_kind(s: OptixState, call: Call)
    requires
        call.opcode == optix_op::DESTROY,
        optix::DestroyRequest::parse(call.body) is Ok,
    ensures
        ({
            let h = optix::DestroyRequest::parse(call.body)->Ok_0.handle;
            &&& h.spec_kind() != KIND_OPTIX_PIPELINE ==> s.step(call).0.pipelines == s.pipelines
            &&& h.spec_kind() != KIND_OPTIX_CONTEXT ==> s.step(call).0.contexts == s.contexts
            &&& h.spec_kind() != KIND_OPTIX_PIPELINE && h.spec_kind() != KIND_OPTIX_CONTEXT
                ==> s.step(call).1 is Err
        }),
{
}

/// A [`optix_op::CONTEXT_CREATE`] is always answered, whatever calls came before
/// and whatever its body holds, with a handle of its kind. As long as a slot index
/// is left, the handle names a context that was not there before; nothing else
/// changes.
pub proof fn law_context_create_answered(
    s: OptixState,
    body: Seq<u8>,
    req_id: u32,
) -> (h: proto::Handle)
    ensures
        ({
            let call = Call { opcode: optix_op::CONTEXT_CREATE, req_id, body };
            let (after, answer) = s.step(call);
            &&& answer == Answer::Ok((optix::ContextCreateResponse { context: h }).bytes())
            &&& h.spec_kind() == KIND_OPTIX_CONTEXT
            &&& s.ok() && (s.contexts.free.len() > 0 || s.contexts.slots.len()
                < 0x1_0000_0000) ==> {
                &&& s.contexts.lookup(h) is None
                &&& after.contexts.lookup(h) == Some(OptixCtxState { created: true })
                &&& forall|g: proto::Handle|
                    !handles::same_object(g, h) ==> #[trigger] after.contexts.lookup(g)
                        == s.contexts.lookup(g)
            }
            &&& after.pipelines == s.pipelines
        }),
{
    handles::law_insert_issues(s.contexts, KIND_OPTIX_CONTEXT, OptixCtxState { created: true });
    s.contexts.next_handle(KIND_OPTIX_CONTEXT)
}

/// A [`optix_op::PIPELINE_CREATE`] that names a live context is always answered,
/// whatever calls came before and whatever bytes follow the request, with a handle
/// of its kind. As long as a slot index is left, the handle names a pipeline that
/// was not there before and that holds what was asked for; nothing else changes.
pub proof fn law_pipeline_create_answered(
    s: OptixState,
    req: optix::PipelineCreateRequest,
    rest: Seq<u8>,
    req_id: u32,
) -> (h: proto::Handle)
    requires
        s.contexts.lookup(req.context) is Some,
    ensures
        ({
            let call = Call { opcode: optix_op::PIPELINE_CREATE, req_id, body: req.bytes() + rest };
            let (after, answer) = s.step(call);
            &&& answer == Answer::Ok((optix::PipelineCreateResponse { pipeline: h }).bytes())
            &&& h.spec_kind() == KIND_OPTIX_PIPELINE
            &&& s.ok() && (s.pipelines.free.len() > 0 || s.pipelines.slots.len()
                < 0x1_0000_0000) ==> {
                &&& s.pipelines.lookup(h) is None
                &&& after.pipelines.lookup(h) == Some(OptixPipelineState { context: req.context })
                &&& forall|g: proto::Handle|
                    !handles::same_object(g, h) ==> #[trigger] after.pipelines.lookup(g)
                        == s.pipelines.lookup(g)
            }
            &&& after.contexts == s.contexts
        }),
{
    req.law_round_trip(rest);
    handles::law_insert_issues(
        s.pipelines,
        KIND_OPTIX_PIPELINE,
        OptixPipelineState { context: req.context },
    );
    s.pipelines.next_handle(KIND_OPTIX_PIPELINE)
}

/// A [`optix_op::PIPELINE_CREATE`] that names no live context is refused by its
/// opcode, and changes nothing.
pub proof fn law_pipeline_create_needs_context(
    s: OptixState,
    req: optix::PipelineCreateRequest,
    rest: Seq<u8>,
    req_id: u32,
)
    requires
        s.contexts.lookup(req.context) is None,
    ensures
        s.step(Call { opcode: optix_op::PIPELINE_CREATE, req_id, body: req.bytes() + rest }) == (
            s,
            Answer::Err(proto::ProtocolError::UnknownOpcode(optix_op::PIPELINE_CREATE)),
        ),
{
    req.law_round_trip(rest);
}

/// A [`optix_op::DESTROY`] of a pipeline handle takes away the pipeline it names,
/// and nothing else, and is acknowledged with an empty body; where there is no such
/// pipeline it is refused by its opcode and nothing changes. What follows the
/// request plays no part.
pub proof fn law_pipeline_destroy_takes_one(
    s: OptixState,
    req: optix::DestroyRequest,
    rest: Seq<u8>,
    req_id: u32,
)
    requires
        req.handle.spec_kind() == KIND_OPTIX_PIPELINE,
    ensures
        ({
            let call = Call { opcode: optix_op::DESTROY, req_id, body: req.bytes() + rest };
            let (after, answer) = s.step(call);
            &&& s.pipelines.lookup(req.handle) is Some ==> {
                &&& answer == Answer::Ok(seq![])
                &&& forall|g: proto::Handle|
                    handles::same_object(g, req.handle) ==> #[trigger] after.pipelines.lookup(
                        g,
                    ) is None
            }
            &&& s.pipelines.lookup(req.handle) is None ==> {
                &&& answer == Answer::Err(
                    proto::ProtocolError::UnknownOpcode(optix_op::DESTROY),
                )
                &&& after == s
            }
            &&& forall|g: proto::Handle|
                !handles::same_object(g, req.handle) ==> #[trigger] after.pipelines.lookup(g)
                    == s.pipelines.lookup(g)
            &&& after.contexts == s.contexts
        }),
{
    req.law_round_trip(rest);
    handles::law_remove_takes_one(s.pipelines, req.handle);
}

/// A [`optix_op::DESTROY`] of a context handle takes away the context it names, and
/// nothing else, and is acknowledged with an empty body; where there is no such
/// context it is refused by its opcode and nothing changes. What follows the
/// request plays no part.
pub proof fn law_context_destroy_takes_one(
    s: OptixState,
    req: optix::DestroyRequest,
    rest: Seq<u8>,
    req_id: u32,
)
    requires
        req.handle.spec_kind() == KIND_OPTIX_CONTEXT,
    ensures
        ({
            let call = Call { opcode: optix_op::DESTROY, req_id, body: req.bytes() + rest };
            let (after, answer) = s.step(call);
            &&& s.contexts.lookup(req.handle) is Some ==> {
                &&& answer == Answer::Ok(seq![])
                &&& forall|g: proto::Handle|
                    handles::same_object(g, req.handle) ==> #[trigger] after.contexts.lookup(
                        g,
                    ) is None
            }
            &&& s.contexts.lookup(req.handle) is None ==> {
                &&& answer == Answer::Err(
                    proto::ProtocolError::UnknownOpcode(optix_op::DESTROY),
                )
                &&& after == s
            }
            &&& forall|g: proto::Handle|
                !handles::same_object(g, req.handle) ==> #[trigger] after.contexts.lookup(g)
                    == s.contexts.lookup(g)
            &&& after.pipelines == s.pipelines
        }),
{
    req.law_round_trip(rest);
    handles::law_remove_takes_one(s.contexts, req.handle);
}

/// A call whose body is too short for its request is refused as an unexpected end,
/// and changes nothing.
pub proof fn law_short_bodies_refused(s: OptixState, call: Call)
    requires
        ({
            ||| call.opcode == optix_op::PIPELINE_CREATE && call.body.len() < 8
            ||| call.opcode == optix_op::DESTROY && call.body.len() < 8
        }),
    ensures
        s.step(call) == (s, Answer::Err(proto::ProtocolError::UnexpectedEof)),
{
}

/// Only calls of the backend's own namespace are answered. Every other opcode, of
/// the namespace or not, is refused by that opcode, whatever its body holds, and
/// changes nothing.
pub proof fn law_other_calls_refused(s: OptixState, call: Call)
    ensures
        s.step(call).1 is Ok ==> call.opcode / 0x100_0000 == proto::ApiId::OptiX.byte(),
        ({
            &&& call.opcode != optix_op::CONTEXT_CREATE
            &&& call.opcode != optix_op::PIPELINE_CREATE
            &&& call.opcode != optix_op::DESTROY
        }) ==> s.step(call) == (
            s,
            Answer::Err(proto::ProtocolError::UnknownOpcode(call.opcode)),
        ),
{
}

/// A new backend serves the namespace of its API, and holds nothing that a handle
/// resolves to.
pub proof fn law_new_backend(
    backend: OptixBackend,
    reader: &OptixBackend,
    api: proto::ApiId,
    h: proto::Handle,
)
    requires
        call_ensures(OptixBackend::new, (), backend),
        call_ensures(<OptixBackend as Backend>::api, (reader,), api),
    ensures
        api == proto::ApiId::OptiX,
        api.byte() == 9,
        backend.inv(),
        backend@.contexts.lookup(h) is None,
        backend@.pipelines.lookup(h) is None,
{
}

} // verus!
