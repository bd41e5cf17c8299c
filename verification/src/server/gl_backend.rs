//! OpenGL backend dispatch.
//!
//! The [`Session`](crate::server::Session) routes any OpenGL-namespace opcode to this
//! backend. Like the Vulkan backend, the OpenGL backend is a pure-Rust **stub**:
//! it tracks object lifetimes in generational handle tables but performs no real
//! driver work. No OpenGL driver, GPU, or FFI dependency is involved.
use vstd::prelude::*;

use super::backend;
use super::backend::{Answer, Backend, Call, Keeps, Machine};
use crate::handles;
use crate::handles::{HandleTable, TableOp, TableState};
use crate::protocol as proto;
use crate::protocol::gl;
use crate::protocol::gl_op;
use crate::protocol::wire::Wire;

verus! {

broadcast use crate::protocol::bytes::lemma_append_to_empty;

/// Server object kind for a `GlContext` handle.
pub const KIND_GL_CONTEXT: u8 = 10;

/// Server object kind for a `GlBuffer` handle.
pub const KIND_GL_BUFFER: u8 = 11;

/// Server-side state tracked for one created OpenGL context.
#[derive(Debug)]
pub struct CtxState {
    /// Marks the context as live; reserved for future per-context state.
    pub created: bool,
}

/// Server-side state tracked for one generated OpenGL buffer.
#[derive(Debug)]
pub struct BufState {
    /// The context handle this buffer was generated in. Recorded
    /// for lifetime and ownership checks.
    pub context: proto::Handle,
}

/// Pure-Rust OpenGL backend stub.
///
/// Owns generational handle tables for the OpenGL objects it tracks. It answers
/// [`gl_op::CREATE_CONTEXT`](proto::gl_op::CREATE_CONTEXT) by minting a context
/// handle, [`gl_op::MAKE_CURRENT`](proto::gl_op::MAKE_CURRENT) by validating a
/// known context and acknowledging with an empty body, and
/// [`gl_op::GEN_BUFFER`](proto::gl_op::GEN_BUFFER) by minting a buffer handle
/// parented to a known context. The real driver bridge lands in a later
/// milestone; every other OpenGL call is reported as not-yet-implemented via
/// [`ProtocolError::UnknownOpcode`](proto::ProtocolError::UnknownOpcode).
pub struct GlBackend {
    /// The contexts.
    pub contexts: HandleTable<CtxState>,
    /// The buffers.
    pub buffers: HandleTable<BufState>,
}

/// What the OpenGL backend holds.
pub ghost struct GlState {
    /// The contexts.
    pub contexts: TableState<CtxState>,
    /// The buffers.
    pub buffers: TableState<BufState>,
}

impl GlState {
    /// The state without objects.
    pub open spec fn empty() -> Self {
        GlState { contexts: TableState::empty(), buffers: TableState::empty() }
    }

    /// Whether `h` names a live context.
    pub open spec fn has_context(self, h: proto::Handle) -> bool {
        self.contexts.lookup(h) matches Some(state) && state.created
    }
}

impl Machine for GlState {
    open spec fn ok(self) -> bool {
        &&& self.contexts.inv()
        &&& self.buffers.inv()
        &&& forall|i: int| #![trigger self.contexts.slots[i]]
            0 <= i < self.contexts.slots.len() ==> (self.contexts.slots[i].value matches Some(state)
                ==> state.created)
    }

    open spec fn step(self, call: Call) -> (Self, Answer) {
        let unknown: (Self, Answer) = (self, Err(proto::ProtocolError::UnknownOpcode(call.opcode)));
        if call.opcode == gl_op::CREATE_CONTEXT {
            (
                GlState {
                    contexts: self.contexts.inserted(CtxState { created: true }),
                    ..self
                },
                Ok(
                    (gl::CreateContextResponse {
                        context: self.contexts.next_handle(KIND_GL_CONTEXT),
                    }).bytes(),
                ),
            )
        } else if call.opcode == gl_op::MAKE_CURRENT {
            match gl::MakeCurrentRequest::parse(call.body) {
                Err(e) => (self, Err(e)),
                Ok(req) => if self.has_context(req.context) {
                    (self, Ok(seq![]))
                } else {
                    unknown
                },
            }
        } else if call.opcode == gl_op::GEN_BUFFER {
            match gl::GenBufferRequest::parse(call.body) {
                Err(e) => (self, Err(e)),
                Ok(req) => if self.has_context(req.context) {
                    (
                        GlState {
                            buffers: self.buffers.inserted(BufState { context: req.context }),
                            ..self
                        },
                        Ok(
                            (gl::GenBufferResponse {
                                buffer: self.buffers.next_handle(KIND_GL_BUFFER),
                            }).bytes(),
                        ),
                    )
                } else {
                    unknown
                },
            }
        } else {
            unknown
        }
    }

    proof fn law_step_keeps(self, call: Call) {
        crate::handles::law_table_keeps(self.contexts);
        crate::handles::law_table_keeps(self.buffers);
    }

    proof fn law_refusal_changes_nothing(self, call: Call) {
    }

    proof fn law_req_id_plays_no_part(self, call: Call, req_id: u32) {
    }
}

impl View for GlBackend {
    type V = GlState;

    open spec fn view(&self) -> GlState {
        GlState { contexts: self.contexts@, buffers: self.buffers@ }
    }
}

impl GlBackend {
    /// Create a new OpenGL backend stub with empty object tables.
    #[must_use]
    pub fn new() -> (backend: Self)
        ensures
            backend.inv(),
            backend@ == GlState::empty(),
    {
        Self { contexts: HandleTable::new(), buffers: HandleTable::new() }
    }
}

impl Default for GlBackend {
    fn default() -> (backend: Self)
        ensures
            backend.inv(),
            backend@ == GlState::empty(),
    {
        Self::new()
    }
}

impl Backend for GlBackend {
    open spec fn inv(&self) -> bool {
        &&& self.contexts.wf()
        &&& self.buffers.wf()
    }

    open spec fn spec_api(&self) -> proto::ApiId {
        proto::ApiId::OpenGl
    }

    open spec fn answer(&self, past: Seq<Call>, call: Call) -> Answer {
        super::backend::run_answer(self@, past, call)
    }

    fn api(&self) -> (api: proto::ApiId) {
        proto::ApiId::OpenGl
    }

    fn handle(
        &mut self,
        opcode: u32,
        req_id: u32,
        body: &[u8],
    ) -> (r: Result<Vec<u8>, proto::ProtocolError>)
        ensures
            (final(self)@, super::backend::answer_of(r)) == old(self)@.step(
                Call { opcode, req_id, body: body@ },
            ),
    {
        proof {
            super::backend::law_step_then_answer(self@, Call { opcode, req_id, body: body@ });
        }
        // Reject anything outside the OpenGL namespace outright.
        if proto::opcode_api(opcode) != proto::ApiId::OpenGl.to_byte() {
            return Err(proto::ProtocolError::UnknownOpcode(opcode));
        }
        match opcode {
            gl_op::CREATE_CONTEXT => {
                // The request body is empty.
                let context = self.contexts.insert(KIND_GL_CONTEXT, CtxState { created: true });
                let mut out: Vec<u8> = Vec::new();
                (gl::CreateContextResponse { context }).encode(&mut out);
                Ok(out)
            },
            gl_op::MAKE_CURRENT => {
                let req = gl::MakeCurrentRequest::decode(body)?;
                // The context must have been created and still be live here.
                let live: bool = match self.contexts.get(req.context) {
                    Some(state) => state.created,
                    None => false,
                };
                if !live {
                    return Err(proto::ProtocolError::UnknownOpcode(opcode));
                }
                // Acknowledge with an empty body.
                Ok(Vec::new())
            },
            gl_op::GEN_BUFFER => {
                let req = gl::GenBufferRequest::decode(body)?;
                // The context must have been created on this backend.
                let live: bool = match self.contexts.get(req.context) {
                    Some(state) => state.created,
                    None => false,
                };
                if !live {
                    return Err(proto::ProtocolError::UnknownOpcode(opcode));
                }
                let buffer = self.buffers.insert(
                    KIND_GL_BUFFER,
                    BufState { context: req.context },
                );
                let mut out: Vec<u8> = Vec::new();
                (gl::GenBufferResponse { buffer }).encode(&mut out);
                Ok(out)
            },
            // Everything else in the OpenGL namespace is not implemented yet.
            other => Err(proto::ProtocolError::UnknownOpcode(other)),
        }
    }
}

impl Keeps<CtxState> for GlState {
    open spec fn table(self) -> TableState<CtxState> {
        self.contexts
    }

    open spec fn op(self, call: Call) -> TableOp<CtxState> {
        if call.opcode == gl_op::CREATE_CONTEXT {
            TableOp::Insert(CtxState { created: true })
        } else {
            TableOp::Read
        }
    }

    proof fn law_call_is_op(self, call: Call) {
    }
}

impl Keeps<BufState> for GlState {
    open spec fn table(self) -> TableState<BufState> {
        self.buffers
    }

    open spec fn op(self, call: Call) -> TableOp<BufState> {
        if call.opcode == gl_op::GEN_BUFFER {
            match gl::GenBufferRequest::parse(call.body) {
                Ok(req) => if self.has_context(req.context) {
                    TableOp::Insert(BufState { context: req.context })
                } else {
                    TableOp::Read
                },
                Err(_) => TableOp::Read,
            }
        } else {
            TableOp::Read
        }
    }

    proof fn law_call_is_op(self, call: Call) {
    }
}

/// The history of the contexts: a call has made the object of a handle if and only
/// if it was a [`gl_op::CREATE_CONTEXT`] answered with a handle of the same slot
/// and generation, and no call takes one away.
pub proof fn law_contexts_history(past: Seq<Call>, i: int, h: proto::Handle)
    ensures
        backend::makes::<CtxState, GlState>(GlState::empty(), past, i, h) <==> {
            &&& 0 <= i < past.len()
            &&& past[i].opcode == gl_op::CREATE_CONTEXT
            &&& exists|g: proto::Handle| #[trigger]
                handles::same_object(g, h) && backend::run_answer(
                    GlState::empty(),
                    past.take(i),
                    past[i],
                ) == Answer::Ok((gl::CreateContextResponse { context: g }).bytes())
        },
        !backend::takes::<CtxState, GlState>(GlState::empty(), past, i, h),
{
    if 0 <= i < past.len() {
        let s = backend::run_state(GlState::empty(), past.take(i));
        let made = s.contexts.next_handle(KIND_GL_CONTEXT);
        backend::law_answer_of_state(GlState::empty(), past.take(i), past[i]);
        handles::law_next_handle_kinds(s.contexts, 0, KIND_GL_CONTEXT);
        let of_made = gl::CreateContextResponse { context: made };
        of_made.law_whole();
        if backend::makes::<CtxState, GlState>(GlState::empty(), past, i, h) {
            assert(handles::same_object(made, h));
        }
        if exists|g: proto::Handle| #[trigger]
            handles::same_object(g, h) && backend::run_answer(
                GlState::empty(),
                past.take(i),
                past[i],
            ) == Answer::Ok((gl::CreateContextResponse { context: g }).bytes()) {
            let g = choose|g: proto::Handle| #[trigger]
                handles::same_object(g, h) && backend::run_answer(
                    GlState::empty(),
                    past.take(i),
                    past[i],
                ) == Answer::Ok((gl::CreateContextResponse { context: g }).bytes());
            let of_g = gl::CreateContextResponse { context: g };
            of_g.law_whole();
        }
    }
}

/// No two [`gl_op::CREATE_CONTEXT`] calls are answered with handles of the same
/// slot and generation, and each handle is of its kind.
pub proof fn law_create_context_issues_once(
    past: Seq<Call>,
    i: int,
    j: int,
    g: proto::Handle,
    h: proto::Handle,
)
    requires
        0 <= i < j < past.len(),
        past[i].opcode == gl_op::CREATE_CONTEXT,
        past[j].opcode == gl_op::CREATE_CONTEXT,
        backend::run_answer(GlState::empty(), past.take(i), past[i]) == Answer::Ok(
            (gl::CreateContextResponse { context: g }).bytes(),
        ),
        backend::run_answer(GlState::empty(), past.take(j), past[j]) == Answer::Ok(
            (gl::CreateContextResponse { context: h }).bytes(),
        ),
        backend::run_state(GlState::empty(), past).contexts.slots.len() <= 0x1_0000_0000,
    ensures
        !handles::same_object(g, h),
        g.spec_kind() == KIND_GL_CONTEXT,
        h.spec_kind() == KIND_GL_CONTEXT,
{
    let empty = GlState::empty();
    let s = backend::run_state(empty, past.take(i));
    let t = backend::run_state(empty, past.take(j));
    backend::law_answer_of_state(empty, past.take(i), past[i]);
    backend::law_answer_of_state(empty, past.take(j), past[j]);
    let of_g = gl::CreateContextResponse { context: g };
    of_g.law_whole();
    let of_h = gl::CreateContextResponse { context: h };
    of_h.law_whole();
    let made_i = s.contexts.next_handle(KIND_GL_CONTEXT);
    let of_made_i = gl::CreateContextResponse { context: made_i };
    of_made_i.law_whole();
    let made_j = t.contexts.next_handle(KIND_GL_CONTEXT);
    let of_made_j = gl::CreateContextResponse { context: made_j };
    of_made_j.law_whole();
    backend::law_made_once::<CtxState, GlState>(empty, past, i, j, KIND_GL_CONTEXT);
}

/// The history of the buffers: a call has made the object of a handle if and only
/// if it was a [`gl_op::GEN_BUFFER`] answered with a handle of the same slot and
/// generation, and no call takes one away.
pub proof fn law_buffers_history(past: Seq<Call>, i: int, h: proto::Handle)
    ensures
        backend::makes::<BufState, GlState>(GlState::empty(), past, i, h) <==> {
            &&& 0 <= i < past.len()
            &&& past[i].opcode == gl_op::GEN_BUFFER
            &&& exists|g: proto::Handle| #[trigger]
                handles::same_object(g, h) && backend::run_answer(
                    GlState::empty(),
                    past.take(i),
                    past[i],
                ) == Answer::Ok((gl::GenBufferResponse { buffer: g }).bytes())
        },
        !backend::takes::<BufState, GlState>(GlState::empty(), past, i, h),
{
    if 0 <= i < past.len() {
        let s = backend::run_state(GlState::empty(), past.take(i));
        let made = s.buffers.next_handle(KIND_GL_BUFFER);
        backend::law_answer_of_state(GlState::empty(), past.take(i), past[i]);
        handles::law_next_handle_kinds(s.buffers, 0, KIND_GL_BUFFER);
        let of_made = gl::GenBufferResponse { buffer: made };
        of_made.law_whole();
        if backend::makes::<BufState, GlState>(GlState::empty(), past, i, h) {
            assert(handles::same_object(made, h));
        }
        if exists|g: proto::Handle| #[trigger]
            handles::same_object(g, h) && backend::run_answer(
                GlState::empty(),
                past.take(i),
                past[i],
            ) == Answer::Ok((gl::GenBufferResponse { buffer: g }).bytes()) {
            let g = choose|g: proto::Handle| #[trigger]
                handles::same_object(g, h) && backend::run_answer(
                    GlState::empty(),
                    past.take(i),
                    past[i],
                ) == Answer::Ok((gl::GenBufferResponse { buffer: g }).bytes());
            let of_g = gl::GenBufferResponse { buffer: g };
            of_g.law_whole();
        }
    }
}

/// No two [`gl_op::GEN_BUFFER`] calls are answered with handles of the same slot
/// and generation, and each handle is of its kind.
pub proof fn law_gen_buffer_issues_once(
    past: Seq<Call>,
    i: int,
    j: int,
    g: proto::Handle,
    h: proto::Handle,
)
    requires
        0 <= i < j < past.len(),
        past[i].opcode == gl_op::GEN_BUFFER,
        past[j].opcode == gl_op::GEN_BUFFER,
        backend::run_answer(GlState::empty(), past.take(i), past[i]) == Answer::Ok(
            (gl::GenBufferResponse { buffer: g }).bytes(),
        ),
        backend::run_answer(GlState::empty(), past.take(j), past[j]) == Answer::Ok(
            (gl::GenBufferResponse { buffer: h }).bytes(),
        ),
        backend::run_state(GlState::empty(), past).buffers.slots.len() <= 0x1_0000_0000,
    ensures
        !handles::same_object(g, h),
        g.spec_kind() == KIND_GL_BUFFER,
        h.spec_kind() == KIND_GL_BUFFER,
{
    let empty = GlState::empty();
    let s = backend::run_state(empty, past.take(i));
    let t = backend::run_state(empty, past.take(j));
    backend::law_answer_of_state(empty, past.take(i), past[i]);
    backend::law_answer_of_state(empty, past.take(j), past[j]);
    let of_g = gl::GenBufferResponse { buffer: g };
    of_g.law_whole();
    let of_h = gl::GenBufferResponse { buffer: h };
    of_h.law_whole();
    let made_i = s.buffers.next_handle(KIND_GL_BUFFER);
    let of_made_i = gl::GenBufferResponse { buffer: made_i };
    of_made_i.law_whole();
    let made_j = t.buffers.next_handle(KIND_GL_BUFFER);
    let of_made_j = gl::GenBufferResponse { buffer: made_j };
    of_made_j.law_whole();
    backend::law_made_once::<BufState, GlState>(empty, past, i, j, KIND_GL_BUFFER);
}

/// A [`gl_op::MAKE_CURRENT`] is answered if and only if the context it names was
/// made by an earlier call; else it is refused.
pub proof fn law_make_current_iff_live(past: Seq<Call>, call: Call)
    requires
        call.opcode == gl_op::MAKE_CURRENT,
        gl::MakeCurrentRequest::parse(call.body) is Ok,
        backend::run_state(GlState::empty(), past).contexts.slots.len() <= 0x1_0000_0000,
    ensures
        ({
            let h = gl::MakeCurrentRequest::parse(call.body)->Ok_0.context;
            if backend::is_live::<CtxState, GlState>(GlState::empty(), past, h) {
                backend::run_answer(GlState::empty(), past, call) == Answer::Ok(seq![])
            } else {
                backend::run_answer(GlState::empty(), past, call) == Answer::Err(
                    proto::ProtocolError::UnknownOpcode(call.opcode),
                )
            }
        }),
{
    let h = gl::MakeCurrentRequest::parse(call.body)->Ok_0.context;
    backend::law_live_is_history::<CtxState, GlState>(GlState::empty(), past, h);
    backend::law_answer_of_state(GlState::empty(), past, call);
    backend::law_run_keeps(GlState::empty(), past);
}

/// A [`gl_op::GEN_BUFFER`] is answered if and only if the context it names was made
/// by an earlier call; else it is refused.
pub proof fn law_gen_buffer_iff_live(past: Seq<Call>, call: Call)
    requires
        call.opcode == gl_op::GEN_BUFFER,
        gl::GenBufferRequest::parse(call.body) is Ok,
        backend::run_state(GlState::empty(), past).contexts.slots.len() <= 0x1_0000_0000,
    ensures
        ({
            let h = gl::GenBufferRequest::parse(call.body)->Ok_0.context;
            if backend::is_live::<CtxState, GlState>(GlState::empty(), past, h) {
                backend::run_answer(GlState::empty(), past, call) == Answer::Ok(
                    (gl::GenBufferResponse {
                        buffer: backend::run_state(
                            GlState::empty(),
                            past,
                        ).buffers.next_handle(KIND_GL_BUFFER),
                    }).bytes(),
                )
            } else {
                backend::run_answer(GlState::empty(), past, call) == Answer::Err(
                    proto::ProtocolError::UnknownOpcode(call.opcode),
                )
            }
        }),
{
    let h = gl::GenBufferRequest::parse(call.body)->Ok_0.context;
    backend::law_live_is_history::<CtxState, GlState>(GlState::empty(), past, h);
    backend::law_answer_of_state(GlState::empty(), past, call);
    backend::law_run_keeps(GlState::empty(), past);
}

/// What [`gl_op::CREATE_CONTEXT`] hands out can be used for
/// [`gl_op::MAKE_CURRENT`], whatever calls come between.
pub proof fn law_create_context_then_make_current(
    s: GlState,
    make: Call,
    past: Seq<Call>,
    call: Call,
)
    requires
        s.ok(),
        s.contexts.free.len() > 0 || s.contexts.slots.len() < 0x1_0000_0000,
        make.opcode == gl_op::CREATE_CONTEXT,
        call.opcode == gl_op::MAKE_CURRENT,
        gl::MakeCurrentRequest::parse(call.body) matches Ok(req) && handles::same_object(
            req.context,
            s.contexts.next_handle(KIND_GL_CONTEXT),
        ),
    ensures
        s.step(make).1 == Answer::Ok(
            (gl::CreateContextResponse {
                context: s.contexts.next_handle(KIND_GL_CONTEXT),
            }).bytes(),
        ),
        backend::run_answer(s.step(make).0, past, call) == Answer::Ok(seq![]),
{
    handles::law_insert_resolves(s.contexts, KIND_GL_CONTEXT, CtxState { created: true });
    let h = s.contexts.next_handle(KIND_GL_CONTEXT);
    let after = s.step(make).0;
    s.law_step_keeps(make);
    backend::law_answer_of_state(after, past, call);
    assert forall|j: int| !(#[trigger] backend::takes::<CtxState, GlState>(after, past, j, h)) by {
    }
    backend::law_stays_live::<CtxState, GlState>(after, past, h);
    backend::law_run_keeps(after, past);
}

/// What [`gl_op::CREATE_CONTEXT`] hands out can be used for [`gl_op::GEN_BUFFER`],
/// whatever calls come between.
pub proof fn law_create_context_then_gen_buffer(
    s: GlState,
    make: Call,
    past: Seq<Call>,
    call: Call,
)
    requires
        s.ok(),
        s.contexts.free.len() > 0 || s.contexts.slots.len() < 0x1_0000_0000,
        make.opcode == gl_op::CREATE_CONTEXT,
        call.opcode == gl_op::GEN_BUFFER,
        gl::GenBufferRequest::parse(call.body) matches Ok(req) && handles::same_object(
            req.context,
            s.contexts.next_handle(KIND_GL_CONTEXT),
        ),
    ensures
        s.step(make).1 == Answer::Ok(
            (gl::CreateContextResponse {
                context: s.contexts.next_handle(KIND_GL_CONTEXT),
            }).bytes(),
        ),
        backend::run_answer(s.step(make).0, past, call) == Answer::Ok(
            (gl::GenBufferResponse {
                buffer: backend::run_state(
                    s.step(make).0,
                    past,
                ).buffers.next_handle(KIND_GL_BUFFER),
            }).bytes(),
        ),
{
    handles::law_insert_resolves(s.contexts, KIND_GL_CONTEXT, CtxState { created: true });
    let h = s.contexts.next_handle(KIND_GL_CONTEXT);
    let after = s.step(make).0;
    s.law_step_keeps(make);
    backend::law_answer_of_state(after, past, call);
    assert forall|j: int| !(#[trigger] backend::takes::<CtxState, GlState>(after, past, j, h)) by {
    }
    backend::law_stays_live::<CtxState, GlState>(after, past, h);
    backend::law_run_keeps(after, past);
}

/// A [`gl_op::CREATE_CONTEXT`] is always answered, whatever calls came before and
/// whatever its body holds, with a handle of its kind. As long as a slot index is
/// left, the handle names a context that was not there before; nothing else
/// changes.
pub proof fn law_create_context_answered(
    s: GlState,
    body: Seq<u8>,
    req_id: u32,
) -> (h: proto::Handle)
    ensures
        ({
            let call = Call { opcode: gl_op::CREATE_CONTEXT, req_id, body };
            let (after, answer) = s.step(call);
            &&& answer == Answer::Ok((gl::CreateContextResponse { context: h }).bytes())
            &&& h.spec_kind() == KIND_GL_CONTEXT
            &&& s.ok() && (s.contexts.free.len() > 0 || s.contexts.slots.len()
                < 0x1_0000_0000) ==> {
                &&& s.contexts.lookup(h) is None
                &&& after.contexts.lookup(h) == Some(CtxState { created: true })
                &&& forall|g: proto::Handle|
                    !handles::same_object(g, h) ==> #[trigger] after.contexts.lookup(g)
                        == s.contexts.lookup(g)
            }
            &&& after.buffers == s.buffers
        }),
{
    handles::law_insert_issues(s.contexts, KIND_GL_CONTEXT, CtxState { created: true });
    s.contexts.next_handle(KIND_GL_CONTEXT)
}

/// A [`gl_op::GEN_BUFFER`] that names a live context is always answered, whatever
/// calls came before and whatever bytes follow the request, with a handle of its
/// kind. As long as a slot index is left, the handle names a buffer that was not
/// there before and that holds what was asked for; nothing else changes.
pub proof fn law_gen_buffer_answered(
    s: GlState,
    req: gl::GenBufferRequest,
    rest: Seq<u8>,
    req_id: u32,
) -> (h: proto::Handle)
    requires
        s.has_context(req.context),
    ensures
        ({
            let call = Call { opcode: gl_op::GEN_BUFFER, req_id, body: req.bytes() + rest };
            let (after, answer) = s.step(call);
            &&& answer == Answer::Ok((gl::GenBufferResponse { buffer: h }).bytes())
            &&& h.spec_kind() == KIND_GL_BUFFER
            &&& s.ok() && (s.buffers.free.len() > 0 || s.buffers.slots.len()
                < 0x1_0000_0000) ==> {
                &&& s.buffers.lookup(h) is None
                &&& after.buffers.lookup(h) == Some(BufState { context: req.context })
                &&& forall|g: proto::Handle|
                    !handles::same_object(g, h) ==> #[trigger] after.buffers.lookup(g)
                        == s.buffers.lookup(g)
            }
            &&& after.contexts == s.contexts
        }),
{
    req.law_round_trip(rest);
    handles::law_insert_issues(s.buffers, KIND_GL_BUFFER, BufState { context: req.context });
    s.buffers.next_handle(KIND_GL_BUFFER)
}

/// A [`gl_op::GEN_BUFFER`] that names no live context is refused by its opcode, and
/// changes nothing.
pub proof fn law_gen_buffer_needs_context(
    s: GlState,
    req: gl::GenBufferRequest,
    rest: Seq<u8>,
    req_id: u32,
)
    requires
        !s.has_context(req.context),
    ensures
        s.step(Call { opcode: gl_op::GEN_BUFFER, req_id, body: req.bytes() + rest }) == (
            s,
            Answer::Err(proto::ProtocolError::UnknownOpcode(gl_op::GEN_BUFFER)),
        ),
{
    req.law_round_trip(rest);
}

/// A [`gl_op::MAKE_CURRENT`] is acknowledged with an empty body if the context it
/// names is live, and refused by its opcode if not; either way nothing changes.
pub proof fn law_make_current_acknowledged(
    s: GlState,
    req: gl::MakeCurrentRequest,
    rest: Seq<u8>,
    req_id: u32,
)
    ensures
        ({
            let call = Call { opcode: gl_op::MAKE_CURRENT, req_id, body: req.bytes() + rest };
            let (after, answer) = s.step(call);
            &&& after == s
            &&& answer == if s.has_context(req.context) {
                Answer::Ok(seq![])
            } else {
                Answer::Err(proto::ProtocolError::UnknownOpcode(gl_op::MAKE_CURRENT))
            }
        }),
{
    req.law_round_trip(rest);
}

/// A call whose body is too short for its request is refused as an unexpected end,
/// and changes nothing.
pub proof fn law_short_bodies_refused(s: GlState, call: Call)
    requires
        ({
            ||| call.opcode == gl_op::GEN_BUFFER && call.body.len() < 8
            ||| call.opcode == gl_op::MAKE_CURRENT && call.body.len() < 8
        }),
    ensures
        s.step(call) == (s, Answer::Err(proto::ProtocolError::UnexpectedEof)),
{
}

/// Only calls of the backend's own namespace are answered. Every other opcode, of
/// the namespace or not, is refused by that opcode, whatever its body holds, and
/// changes nothing.
pub proof fn law_other_calls_refused(s: GlState, call: Call)
    ensures
        s.step(call).1 is Ok ==> call.opcode / 0x100_0000 == proto::ApiId::OpenGl.byte(),
        ({
            &&& call.opcode != gl_op::CREATE_CONTEXT
            &&& call.opcode != gl_op::GEN_BUFFER
            &&& call.opcode != gl_op::MAKE_CURRENT
        }) ==> s.step(call) == (
            s,
            Answer::Err(proto::ProtocolError::UnknownOpcode(call.opcode)),
        ),
{
}

/// A new backend serves the namespace of its API, and holds nothing that a handle
/// resolves to.
pub proof fn law_new_backend(
    backend: GlBackend,
    reader: &GlBackend,
    api: proto::ApiId,
    h: proto::Handle,
)
    requires
        call_ensures(GlBackend::new, (), backend),
        call_ensures(<GlBackend as Backend>::api, (reader,), api),
    ensures
        api == proto::ApiId::OpenGl,
        api.byte() == 2,
        backend.inv(),
        backend@.contexts.lookup(h) is None,
        backend@.buffers.lookup(h) is None,
{
}

} // verus!
