//! OpenCL backend dispatch.
//!
//! The [`Session`](crate::server::Session) routes any OpenCL-namespace opcode to this
//! backend. Like the Vulkan, OpenGL, CUDA, and HIP backends, the OpenCL backend
//! is a pure-Rust **stub**: it tracks object lifetimes in generational handle
//! tables but performs no real driver work. No OpenCL SDK, GPU, or FFI
//! dependency is involved.
use vstd::prelude::*;

use super::backend;
use super::backend::{Answer, Backend, Call, Keeps, Machine};
use crate::handles;
use crate::handles::{HandleTable, TableOp, TableState};
use crate::protocol as proto;
use crate::protocol::cl;
use crate::protocol::cl_op;
use crate::protocol::wire::Wire;

verus! {

broadcast use crate::protocol::bytes::lemma_append_to_empty;

/// Server object kind for an OpenCL context handle.
pub const KIND_CL_CONTEXT: u8 = 40;

/// Server object kind for an OpenCL memory-buffer handle.
pub const KIND_CL_MEM: u8 = 41;

/// Server-side state tracked for one created OpenCL context.
#[derive(Debug)]
pub struct ClCtxState {
    /// Marks the context as live; reserved for future per-context state.
    pub created: bool,
}

/// Server-side state tracked for one OpenCL memory buffer.
#[derive(Debug)]
pub struct ClBufState {
    /// The context handle this buffer was created in. Recorded
    /// for lifetime and ownership checks.
    pub context: proto::Handle,
    /// Size of the buffer in bytes.
    pub size: u64,
}

/// Pure-Rust OpenCL backend stub.
///
/// Owns generational handle tables for the OpenCL objects it tracks. It answers
/// [`cl_op::CREATE_CONTEXT`](proto::cl_op::CREATE_CONTEXT) by minting a context
/// handle, [`cl_op::CREATE_BUFFER`](proto::cl_op::CREATE_BUFFER) by minting a
/// memory-buffer handle parented to a known context, and
/// [`cl_op::RELEASE_BUFFER`](proto::cl_op::RELEASE_BUFFER) by removing a known
/// memory-buffer handle and acknowledging with an empty body. The real driver
/// bridge lands later; every other OpenCL call is reported as
/// not-yet-implemented via
/// [`ProtocolError::UnknownOpcode`](proto::ProtocolError::UnknownOpcode).
pub struct ClBackend {
    /// The contexts.
    pub contexts: HandleTable<ClCtxState>,
    /// The memory buffers.
    pub buffers: HandleTable<ClBufState>,
}

/// What the OpenCL backend holds.
pub ghost struct ClState {
    /// The contexts.
    pub contexts: TableState<ClCtxState>,
    /// The memory buffers.
    pub buffers: TableState<ClBufState>,
}

impl ClState {
    /// The state without objects.
    pub open spec fn empty() -> Self {
        ClState { contexts: TableState::empty(), buffers: TableState::empty() }
    }
}

impl Machine for ClState {
    open spec fn ok(self) -> bool {
        &&& self.contexts.inv()
        &&& self.buffers.inv()
    }

    open spec fn step(self, call: Call) -> (Self, Answer) {
        let unknown: (Self, Answer) = (self, Err(proto::ProtocolError::UnknownOpcode(call.opcode)));
        if call.opcode == cl_op::CREATE_CONTEXT {
            (
                ClState {
                    contexts: self.contexts.inserted(ClCtxState { created: true }),
                    ..self
                },
                Ok(
                    (cl::CreateContextResponse {
                        context: self.contexts.next_handle(KIND_CL_CONTEXT),
                    }).bytes(),
                ),
            )
        } else if call.opcode == cl_op::CREATE_BUFFER {
            match cl::CreateBufferRequest::parse(call.body) {
                Err(e) => (self, Err(e)),
                Ok(req) => if self.contexts.lookup(req.context) is Some {
                    (
                        ClState {
                            buffers: self.buffers.inserted(
                                ClBufState { context: req.context, size: req.size },
                            ),
                            ..self
                        },
                        Ok(
                            (cl::CreateBufferResponse {
                                mem: self.buffers.next_handle(KIND_CL_MEM),
                            }).bytes(),
                        ),
                    )
                } else {
                    unknown
                },
            }
        } else if call.opcode == cl_op::RELEASE_BUFFER {
            match cl::ReleaseBufferRequest::parse(call.body) {
                Err(e) => (self, Err(e)),
                Ok(req) => if self.buffers.lookup(req.mem) is Some {
                    (
                        ClState { buffers: self.buffers.removed(req.mem), ..self },
                        Ok(seq![]),
                    )
                } else {
                    unknown
                },
            }
        } else {
            unknown
        }
    }

    proof fn law_step_keeps(self, call: Call) {
        crate::handles::law_table_keeps(self.contexts);
        crate::handles::law_table_keeps(self.buffers);
    }

    proof fn law_refusal_changes_nothing(self, call: Call) {
    }

    proof fn law_req_id_plays_no_part(self, call: Call, req_id: u32) {
    }
}

impl View for ClBackend {
    type V = ClState;

    open spec fn view(&self) -> ClState {
        ClState { contexts: self.contexts@, buffers: self.buffers@ }
    }
}

impl ClBackend {
    /// Create a new OpenCL backend stub with empty object tables.
    #[must_use]
    pub fn new() -> (backend: Self)
        ensures
            backend.inv(),
            backend@ == ClState::empty(),
    {
        Self { contexts: HandleTable::new(), buffers: HandleTable::new() }
    }
}

impl Default for ClBackend {
    fn default() -> (backend: Self)
        ensures
            backend.inv(),
            backend@ == ClState::empty(),
    {
        Self::new()
    }
}

impl Backend for ClBackend {
    open spec fn inv(&self) -> bool {
        &&& self.contexts.wf()
        &&& self.buffers.wf()
    }

    open spec fn spec_api(&self) -> proto::ApiId {
        proto::ApiId::OpenCl
    }

    open spec fn answer(&self, past: Seq<Call>, call: Call) -> Answer {
        super::backend::run_answer(self@, past, call)
    }

    fn api(&self) -> (api: proto::ApiId) {
        proto::ApiId::OpenCl
    }

    fn handle(
        &mut self,
        opcode: u32,
        req_id: u32,
        body: &[u8],
    ) -> (r: Result<Vec<u8>, proto::ProtocolError>)
        ensures
            (final(self)@, super::backend::answer_of(r)) == old(self)@.step(
                Call { opcode, req_id, body: body@ },
            ),
    {
        proof {
            super::backend::law_step_then_answer(self@, Call { opcode, req_id, body: body@ });
        }
        // Reject anything outside the OpenCL namespace outright.
        if proto::opcode_api(opcode) != proto::ApiId::OpenCl.to_byte() {
            return Err(proto::ProtocolError::UnknownOpcode(opcode));
        }
        match opcode {
            cl_op::CREATE_CONTEXT => {
                // The request body is empty, so there is nothing to decode.
                let context = self.contexts.insert(KIND_CL_CONTEXT, ClCtxState { created: true });
                let mut out: Vec<u8> = Vec::new();
                (cl::CreateContextResponse { context }).encode(&mut out);
                Ok(out)
            },
            cl_op::CREATE_BUFFER => {
                let req = cl::CreateBufferRequest::decode(body)?;
                // The context must have been created on this backend.
                if self.contexts.get(req.context).is_none() {
                    return Err(proto::ProtocolError::UnknownOpcode(opcode));
                }
                let mem = self.buffers.insert(
                    KIND_CL_MEM,
                    ClBufState { context: req.context, size: req.size },
                );
                let mut out: Vec<u8> = Vec::new();
                (cl::CreateBufferResponse { mem }).encode(&mut out);
                Ok(out)
            },
            cl_op::RELEASE_BUFFER => {
                let req = cl::ReleaseBufferRequest::decode(body)?;
                // The buffer must have been created on this backend and still be
                // live; removing it both validates and releases it.
                if self.buffers.remove(req.mem).is_none() {
                    return Err(proto::ProtocolError::UnknownOpcode(opcode));
                }
                // Acknowledge with an empty body.
                Ok(Vec::new())
            },
            // Everything else in the OpenCL namespace is not implemented yet.
            other => Err(proto::ProtocolError::UnknownOpcode(other)),
        }
    }
}

impl Keeps<ClCtxState> for ClState {
    open spec fn table(self) -> TableState<ClCtxState> {
        self.contexts
    }

    open spec fn op(self, call: Call) -> TableOp<ClCtxState> {
        if call.opcode == cl_op::CREATE_CONTEXT {
            TableOp::Insert(ClCtxState { created: true })
        } else {
            TableOp::Read
        }
    }

    proof fn law_call_is_op(self, call: Call) {
    }
}

impl Keeps<ClBufState> for ClState {
    open spec fn table(self) -> TableState<ClBufState> {
        self.buffers
    }

    open spec fn op(self, call: Call) -> TableOp<ClBufState> {
        if call.opcode == cl_op::CREATE_BUFFER {
            match cl::CreateBufferRequest::parse(call.body) {
                Ok(req) => if self.contexts.lookup(req.context) is Some {
                    TableOp::Insert(ClBufState { context: req.context, size: req.size })
                } else {
                    TableOp::Read
                },
                Err(_) => TableOp::Read,
            }
        } else if call.opcode == cl_op::RELEASE_BUFFER {
            match cl::ReleaseBufferRequest::parse(call.body) {
                Ok(req) => TableOp::Remove(req.mem),
                Err(_) => TableOp::Read,
            }
        } else {
            TableOp::Read
        }
    }

    proof fn law_call_is_op(self, call: Call) {
    }
}

/// Whether `call` is a [`cl_op::RELEASE_BUFFER`] that names the object of `h`.
pub open spec fn is_release_buffer(call: Call, h: proto::Handle) -> bool {
    &&& call.opcode == cl_op::RELEASE_BUFFER
    &&& cl::ReleaseBufferRequest::parse(call.body) matches Ok(req)
    &&& handles::same_object(req.mem, h)
}

/// The history of the contexts: a call has made the object of a handle if and only
/// if it was a [`cl_op::CREATE_CONTEXT`] answered with a handle of the same slot
/// and generation, and no call takes one away.
pub proof fn law_contexts_history(past: Seq<Call>, i: int, h: proto::Handle)
    ensures
        backend::makes::<ClCtxState, ClState>(ClState::empty(), past, i, h) <==> {
            &&& 0 <= i < past.len()
            &&& past[i].opcode == cl_op::CREATE_CONTEXT
            &&& exists|g: proto::Handle| #[trigger]
                handles::same_object(g, h) && backend::run_answer(
                    ClState::empty(),
                    past.take(i),
                    past[i],
                ) == Answer::Ok((cl::CreateContextResponse { context: g }).bytes())
        },
        !backend::takes::<ClCtxState, ClState>(ClState::empty(), past, i, h),
{
    if 0 <= i < past.len() {
        let s = backend::run_state(ClState::empty(), past.take(i));
        let made = s.contexts.next_handle(KIND_CL_CONTEXT);
        backend::law_answer_of_state(ClState::empty(), past.take(i), past[i]);
        handles::law_next_handle_kinds(s.contexts, 0, KIND_CL_CONTEXT);
        let of_made = cl::CreateContextResponse { context: made };
        of_made.law_whole();
        if backend::makes::<ClCtxState, ClState>(ClState::empty(), past, i, h) {
            assert(handles::same_object(made, h));
        }
        if exists|g: proto::Handle| #[trigger]
            handles::same_object(g, h) && backend::run_answer(
                ClState::empty(),
                past.take(i),
                past[i],
            ) == Answer::Ok((cl::CreateContextResponse { context: g }).bytes()) {
            let g = choose|g: proto::Handle| #[trigger]
                handles::same_object(g, h) && backend::run_answer(
                    ClState::empty(),
                    past.take(i),
                    past[i],
                ) == Answer::Ok((cl::CreateContextResponse { context: g }).bytes());
            let of_g = cl::CreateContextResponse { context: g };
            of_g.law_whole();
        }
    }
}

/// No two [`cl_op::CREATE_CONTEXT`] calls are answered with handles of the same
/// slot and generation, and each handle is of its kind.
pub proof fn law_create_context_issues_once(
    past: Seq<Call>,
    i: int,
    j: int,
    g: proto::Handle,
    h: proto::Handle,
)
    requires
        0 <= i < j < past.len(),
        past[i].opcode == cl_op::CREATE_CONTEXT,
        past[j].opcode == cl_op::CREATE_CONTEXT,
        backend::run_answer(ClState::empty(), past.take(i), past[i]) == Answer::Ok(
            (cl::CreateContextResponse { context: g }).bytes(),
        ),
        backend::run_answer(ClState::empty(), past.take(j), past[j]) == Answer::Ok(
            (cl::CreateContextResponse { context: h }).bytes(),
        ),
        backend::run_state(ClState::empty(), past).contexts.slots.len() <= 0x1_0000_0000,
    ensures
        !handles::same_object(g, h),
        g.spec_kind() == KIND_CL_CONTEXT,
        h.spec_kind() == KIND_CL_CONTEXT,
{
    let empty = ClState::empty();
    let s = backend::run_state(empty, past.take(i));
    let t = backend::run_state(empty, past.take(j));
    backend::law_answer_of_state(empty, past.take(i), past[i]);
    backend::law_answer_of_state(empty, past.take(j), past[j]);
    let of_g = cl::CreateContextResponse { context: g };
    of_g.law_whole();
    let of_h = cl::CreateContextResponse { context: h };
    of_h.law_whole();
    let made_i = s.contexts.next_handle(KIND_CL_CONTEXT);
    let of_made_i = cl::CreateContextResponse { context: made_i };
    of_made_i.law_whole();
    let made_j = t.contexts.next_handle(KIND_CL_CONTEXT);
    let of_made_j = cl::CreateContextResponse { context: made_j };
    of_made_j.law_whole();
    backend::law_made_once::<ClCtxState, ClState>(empty, past, i, j, KIND_CL_CONTEXT);
}

/// The history of the buffers: a call has made the object of a handle if and only
/// if it was a [`cl_op::CREATE_BUFFER`] answered with a handle of the same slot and
/// generation, and takes it away if and only if it is a [`cl_op::RELEASE_BUFFER`]
/// that names it.
pub proof fn law_buffers_history(past: Seq<Call>, i: int, h: proto::Handle)
    ensures
        backend::makes::<ClBufState, ClState>(ClState::empty(), past, i, h) <==> {
            &&& 0 <= i < past.len()
            &&& past[i].opcode == cl_op::CREATE_BUFFER
            &&& exists|g: proto::Handle| #[trigger]
                handles::same_object(g, h) && backend::run_answer(
                    ClState::empty(),
                    past.take(i),
                    past[i],
                ) == Answer::Ok((cl::CreateBufferResponse { mem: g }).bytes())
        },
        backend::takes::<ClBufState, ClState>(ClState::empty(), past, i, h)
            <==> 0 <= i < past.len() && is_release_buffer(past[i], h),
{
    if 0 <= i < past.len() {
        let s = backend::run_state(ClState::empty(), past.take(i));
        let made = s.buffers.next_handle(KIND_CL_MEM);
        backend::law_answer_of_state(ClState::empty(), past.take(i), past[i]);
        handles::law_next_handle_kinds(s.buffers, 0, KIND_CL_MEM);
        let of_made = cl::CreateBufferResponse { mem: made };
        of_made.law_whole();
        if backend::makes::<ClBufState, ClState>(ClState::empty(), past, i, h) {
            assert(handles::same_object(made, h));
        }
        if exists|g: proto::Handle| #[trigger]
            handles::same_object(g, h) && backend::run_answer(
                ClState::empty(),
                past.take(i),
                past[i],
            ) == Answer::Ok((cl::CreateBufferResponse { mem: g }).bytes()) {
            let g = choose|g: proto::Handle| #[trigger]
                handles::same_object(g, h) && backend::run_answer(
                    ClState::empty(),
                    past.take(i),
                    past[i],
                ) == Answer::Ok((cl::CreateBufferResponse { mem: g }).bytes());
            let of_g = cl::CreateBufferResponse { mem: g };
            of_g.law_whole();
        }
    }
}

/// No two [`cl_op::CREATE_BUFFER`] calls are answered with handles of the same slot
/// and generation, and each handle is of its kind.
pub proof fn law_create_buffer_issues_once(
    past: Seq<Call>,
    i: int,
    j: int,
    g: proto::Handle,
    h: proto::Handle,
)
    requires
        0 <= i < j < past.len(),
        past[i].opcode == cl_op::CREATE_BUFFER,
        past[j].opcode == cl_op::CREATE_BUFFER,
        backend::run_answer(ClState::empty(), past.take(i), past[i]) == Answer::Ok(
            (cl::CreateBufferResponse { mem: g }).bytes(),
        ),
        backend::run_answer(ClState::empty(), past.take(j), past[j]) == Answer::Ok(
            (cl::CreateBufferResponse { mem: h }).bytes(),
        ),
        backend::run_state(ClState::empty(), past).buffers.slots.len() <= 0x1_0000_0000,
    ensures
        !handles::same_object(g, h),
        g.spec_kind() == KIND_CL_MEM,
        h.spec_kind() == KIND_CL_MEM,
{
    let empty = ClState::empty();
    let s = backend::run_state(empty, past.take(i));
    let t = backend::run_state(empty, past.take(j));
    backend::law_answer_of_state(empty, past.take(i), past[i]);
    backend::law_answer_of_state(empty, past.take(j), past[j]);
    let of_g = cl::CreateBufferResponse { mem: g };
    of_g.law_whole();
    let of_h = cl::CreateBufferResponse { mem: h };
    of_h.law_whole();
    let made_i = s.buffers.next_handle(KIND_CL_MEM);
    let of_made_i = cl::CreateBufferResponse { mem: made_i };
    of_made_i.law_whole();
    let made_j = t.buffers.next_handle(KIND_CL_MEM);
    let of_made_j = cl::CreateBufferResponse { mem: made_j };
    of_made_j.law_whole();
    backend::law_made_once::<ClBufState, ClState>(empty, past, i, j, KIND_CL_MEM);
}

/// A [`cl_op::CREATE_BUFFER`] is answered if and only if the context it names was
/// made by an earlier call; else it is refused.
pub proof fn law_create_buffer_iff_live(past: Seq<Call>, call: Call)
    requires
        call.opcode == cl_op::CREATE_BUFFER,
        cl::CreateBufferRequest::parse(call.body) is Ok,
        backend::run_state(ClState::empty(), past).contexts.slots.len() <= 0x1_0000_0000,
    ensures
        ({
            let h = cl::CreateBufferRequest::parse(call.body)->Ok_0.context;
            if backend::is_live::<ClCtxState, ClState>(ClState::empty(), past, h) {
                backend::run_answer(ClState::empty(), past, call) == Answer::Ok(
                    (cl::CreateBufferResponse {
                        mem: backend::run_state(
                            ClState::empty(),
                            past,
                        ).buffers.next_handle(KIND_CL_MEM),
                    }).bytes(),
                )
            } else {
                backend::run_answer(ClState::empty(), past, call) == Answer::Err(
                    proto::ProtocolError::UnknownOpcode(call.opcode),
                )
            }
        }),
{
    let h = cl::CreateBufferRequest::parse(call.body)->Ok_0.context;
    backend::law_live_is_history::<ClCtxState, ClState>(ClState::empty(), past, h);
    backend::law_answer_of_state(ClState::empty(), past, call);
}

/// A [`cl_op::RELEASE_BUFFER`] is answered if and only if the buffer it names was
/// made by an earlier call and not taken away since; else it is refused.
pub proof fn law_release_buffer_iff_live(past: Seq<Call>, call: Call)
    requires
        call.opcode == cl_op::RELEASE_BUFFER,
        cl::ReleaseBufferRequest::parse(call.body) is Ok,
        backend::run_state(ClState::empty(), past).buffers.slots.len() <= 0x1_0000_0000,
    ensures
        ({
            let h = cl::ReleaseBufferRequest::parse(call.body)->Ok_0.mem;
            if backend::is_live::<ClBufState, ClState>(ClState::empty(), past, h) {
                backend::run_answer(ClState::empty(), past, call) == Answer::Ok(seq![])
            } else {
                backend::run_answer(ClState::empty(), past, call) == Answer::Err(
                    proto::ProtocolError::UnknownOpcode(call.opcode),
                )
            }
        }),
{
    let h = cl::ReleaseBufferRequest::parse(call.body)->Ok_0.mem;
    backend::law_live_is_history::<ClBufState, ClState>(ClState::empty(), past, h);
    backend::law_answer_of_state(ClState::empty(), past, call);
}

/// What [`cl_op::CREATE_CONTEXT`] hands out can be used for
/// [`cl_op::CREATE_BUFFER`], whatever calls come between.
pub proof fn law_create_context_then_create_buffer(
    s: ClState,
    make: Call,
    past: Seq<Call>,
    call: Call,
)
    requires
        s.ok(),
        s.contexts.free.len() > 0 || s.contexts.slots.len() < 0x1_0000_0000,
        make.opcode == cl_op::CREATE_CONTEXT,
        call.opcode == cl_op::CREATE_BUFFER,
        cl::CreateBufferRequest::parse(call.body) matches Ok(req) && handles::same_object(
            req.context,
            s.contexts.next_handle(KIND_CL_CONTEXT),
        ),
    ensures
        s.step(make).1 == Answer::Ok(
            (cl::CreateContextResponse {
                context: s.contexts.next_handle(KIND_CL_CONTEXT),
            }).bytes(),
        ),
        backend::run_answer(s.step(make).0, past, call) == Answer::Ok(
            (cl::CreateBufferResponse {
                mem: backend::run_state(s.step(make).0, past).buffers.next_handle(KIND_CL_MEM),
            }).bytes(),
        ),
{
    handles::law_insert_resolves(
        s.contexts,
        KIND_CL_CONTEXT,
        ClCtxState { created: true },
    );
    let h = s.contexts.next_handle(KIND_CL_CONTEXT);
    let after = s.step(make).0;
    s.law_step_keeps(make);
    backend::law_answer_of_state(after, past, call);
    assert forall|j: int| !(#[trigger] backend::takes::<ClCtxState, ClState>(
        after,
        past,
        j,
        h,
    )) by {
    }
    backend::law_stays_live::<ClCtxState, ClState>(after, past, h);
}

/// What [`cl_op::CREATE_BUFFER`] hands out can be used for
/// [`cl_op::RELEASE_BUFFER`], whatever calls come between that do not take it away.
pub proof fn law_create_buffer_then_release_buffer(
    s: ClState,
    make: Call,
    past: Seq<Call>,
    call: Call,
)
    requires
        s.ok(),
        s.buffers.free.len() > 0 || s.buffers.slots.len() < 0x1_0000_0000,
        make.opcode == cl_op::CREATE_BUFFER,
        cl::CreateBufferRequest::parse(make.body) matches Ok(req)
            && s.contexts.lookup(req.context) is Some,
        call.opcode == cl_op::RELEASE_BUFFER,
        cl::ReleaseBufferRequest::parse(call.body) matches Ok(req) && handles::same_object(
            req.mem,
            s.buffers.next_handle(KIND_CL_MEM),
        ),
        forall|j: int| 0 <= j < past.len() ==> !is_release_buffer(
            #[trigger] past[j],
            s.buffers.next_handle(KIND_CL_MEM),
        ),
    ensures
        s.step(make).1 == Answer::Ok(
            (cl::CreateBufferResponse { mem: s.buffers.next_handle(KIND_CL_MEM) }).bytes(),
        ),
        backend::run_answer(s.step(make).0, past, call) == Answer::Ok(seq![]),
{
    let req = cl::CreateBufferRequest::parse(make.body)->Ok_0;
    handles::law_insert_resolves(
        s.buffers,
        KIND_CL_MEM,
        ClBufState { context: req.context, size: req.size },
    );
    let h = s.buffers.next_handle(KIND_CL_MEM);
    let after = s.step(make).0;
    s.law_step_keeps(make);
    backend::law_answer_of_state(after, past, call);
    assert forall|j: int| !(#[trigger] backend::takes::<ClBufState, ClState>(
        after,
        past,
        j,
        h,
    )) by {
        if 0 <= j < past.len() {
            assert(!is_release_buffer(past[j], h));
        }
    }
    backend::law_stays_live::<ClBufState, ClState>(after, past, h);
}

/// What a [`cl_op::RELEASE_BUFFER`] has taken away stays away: a call that names
/// the same object is refused afterwards, whatever calls come between.
pub proof fn law_release_buffer_is_final(
    s: ClState,
    h: proto::Handle,
    past: Seq<Call>,
    call: Call,
    again: Call,
)
    requires
        s.ok(),
        s.buffers.lookup(h) is Some,
        is_release_buffer(call, h),
        is_release_buffer(again, h),
    ensures
        s.step(call).1 == Answer::Ok(seq![]),
        backend::run_answer(s.step(call).0, past, again)
            == Answer::Err(proto::ProtocolError::UnknownOpcode(again.opcode)),
{
    s.law_step_keeps(call);
    backend::law_answer_of_state(s.step(call).0, past, again);
    backend::law_gone_stays_gone::<ClBufState, ClState>(s.step(call).0, past, h);
}

/// A [`cl_op::CREATE_CONTEXT`] is always answered, whatever calls came before and
/// whatever its body holds, with a handle of its kind. As long as a slot index is
/// left, the handle names a context that was not there before; nothing else
/// changes.
pub proof fn law_create_context_answered(
    s: ClState,
    body: Seq<u8>,
    req_id: u32,
) -> (h: proto::Handle)
    ensures
        ({
            let call = Call { opcode: cl_op::CREATE_CONTEXT, req_id, body };
            let (after, answer) = s.step(call);
            &&& answer == Answer::Ok((cl::CreateContextResponse { context: h }).bytes())
            &&& h.spec_kind() == KIND_CL_CONTEXT
            &&& s.ok() && (s.contexts.free.len() > 0 || s.contexts.slots.len()
                < 0x1_0000_0000) ==> {
                &&& s.contexts.lookup(h) is None
                &&& after.contexts.lookup(h) == Some(ClCtxState { created: true })
                &&& forall|g: proto::Handle|
                    !handles::same_object(g, h) ==> #[trigger] after.contexts.lookup(g)
                        == s.contexts.lookup(g)
            }
            &&& after.buffers == s.buffers
        }),
{
    handles::law_insert_issues(s.contexts, KIND_CL_CONTEXT, ClCtxState { created: true });
    s.contexts.next_handle(KIND_CL_CONTEXT)
}

/// A [`cl_op::CREATE_BUFFER`] that names a live context is always answered,
/// whatever calls came before and whatever bytes follow the request, with a handle
/// of its kind. As long as a slot index is left, the handle names a buffer that was
/// not there before and that holds what was asked for; nothing else changes.
pub proof fn law_create_buffer_answered(
    s: ClState,
    req: cl::CreateBufferRequest,
    rest: Seq<u8>,
    req_id: u32,
) -> (h: proto::Handle)
    requires
        s.contexts.lookup(req.context) is Some,
    ensures
        ({
            let call = Call { opcode: cl_op::CREATE_BUFFER, req_id, body: req.bytes() + rest };
            let (after, answer) = s.step(call);
            &&& answer == Answer::Ok((cl::CreateBufferResponse { mem: h }).bytes())
            &&& h.spec_kind() == KIND_CL_MEM
            &&& s.ok() && (s.buffers.free.len() > 0 || s.buffers.slots.len()
                < 0x1_0000_0000) ==> {
                &&& s.buffers.lookup(h) is None
                &&& after.buffers.lookup(h) == Some(
                    ClBufState { context: req.context, size: req.size },
                )
                &&& forall|g: proto::Handle|
                    !handles::same_object(g, h) ==> #[trigger] after.buffers.lookup(g)
                        == s.buffers.lookup(g)
            }
            &&& after.contexts == s.contexts
        }),
{
    req.law_round_trip(rest);
    handles::law_insert_issues(
        s.buffers,
        KIND_CL_MEM,
        ClBufState { context: req.context, size: req.size },
    );
    s.buffers.next_handle(KIND_CL_MEM)
}

/// A [`cl_op::CREATE_BUFFER`] that names no live context is refused by its opcode,
/// and changes nothing.
pub proof fn law_create_buffer_needs_context(
    s: ClState,
    req: cl::CreateBufferRequest,
    rest: Seq<u8>,
    req_id: u32,
)
    requires
        s.contexts.lookup(req.context) is None,
    ensures
        s.step(Call { opcode: cl_op::CREATE_BUFFER, req_id, body: req.bytes() + rest }) == (
            s,
            Answer::Err(proto::ProtocolError::UnknownOpcode(cl_op::CREATE_BUFFER)),
        ),
{
    req.law_round_trip(rest);
}

/// A [`cl_op::RELEASE_BUFFER`] takes away the buffer it names, and nothing else,
/// and is acknowledged with an empty body; where there is no such buffer it is
/// refused by its opcode and nothing changes. What follows the request plays no
/// part.
pub proof fn law_release_buffer_takes_one(
    s: ClState,
    req: cl::ReleaseBufferRequest,
    rest: Seq<u8>,
    req_id: u32,
)
    ensures
        ({
            let call = Call { opcode: cl_op::RELEASE_BUFFER, req_id, body: req.bytes() + rest };
            let (after, answer) = s.step(call);
            &&& s.buffers.lookup(req.mem) is Some ==> {
                &&& answer == Answer::Ok(seq![])
                &&& forall|g: proto::Handle|
                    handles::same_object(g, req.mem) ==> #[trigger] after.buffers.lookup(
                        g,
                    ) is None
            }
            &&& s.buffers.lookup(req.mem) is None ==> {
                &&& answer == Answer::Err(
                    proto::ProtocolError::UnknownOpcode(cl_op::RELEASE_BUFFER),
                )
                &&& after == s
            }
            &&& forall|g: proto::Handle|
                !handles::same_object(g, req.mem) ==> #[trigger] after.buffers.lookup(g)
                    == s.buffers.lookup(g)
            &&& after.contexts == s.contexts
        }),
{
    req.law_round_trip(rest);
    handles::law_remove_takes_one(s.buffers, req.mem);
}

/// A call whose body is too short for its request is refused as an unexpected end,
/// and changes nothing.
pub proof fn law_short_bodies_refused(s: ClState, call: Call)
    requires
        ({
            ||| call.opcode == cl_op::CREATE_BUFFER && call.body.len() < 16
            ||| call.opcode == cl_op::RELEASE_BUFFER && call.body.len() < 8
        }),
    ensures
        s.step(call) == (s, Answer::Err(proto::ProtocolError::UnexpectedEof)),
{
}

/// Only calls of the backend's own namespace are answered. Every other opcode, of
/// the namespace or not, is refused by that opcode, whatever its body holds, and
/// changes nothing.
pub proof fn law_other_calls_refused(s: ClState, call: Call)
    ensures
        s.step(call).1 is Ok ==> call.opcode / 0x100_0000 == proto::ApiId::OpenCl.byte(),
        ({
            &&& call.opcode != cl_op::CREATE_CONTEXT
            &&& call.opcode != cl_op::CREATE_BUFFER
            &&& call.opcode != cl_op::RELEASE_BUFFER
        }) ==> s.step(call) == (
            s,
            Answer::Err(proto::ProtocolError::UnknownOpcode(call.opcode)),
        ),
{
}

/// A new backend serves the namespace of its API, and holds nothing that a handle
/// resolves to.
pub proof fn law_new_backend(
    backend: ClBackend,
    reader: &ClBackend,
    api: proto::ApiId,
    h: proto::Handle,
)
    requires
        call_ensures(ClBackend::new, (), backend),
        call_ensures(<ClBackend as Backend>::api, (reader,), api),
    ensures
        api == proto::ApiId::OpenCl,
        api.byte() == 4,
        backend.inv(),
        backend@.contexts.lookup(h) is None,
        backend@.buffers.lookup(h) is None,
{
}

} // verus!
