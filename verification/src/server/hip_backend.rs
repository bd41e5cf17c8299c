//! HIP backend dispatch.
//!
//! The [`Session`](crate::server::Session) routes any HIP-namespace opcode to this
//! backend. Like the Vulkan, OpenGL, and CUDA backends, the HIP backend is a
//! pure-Rust **stub**: it tracks object lifetimes in generational handle tables
//! but performs no real driver work. No ROCm toolkit, GPU, or FFI dependency is
//! involved.
use vstd::prelude::*;

use super::backend;
use super::backend::{Answer, Backend, Call, Keeps, Machine};
use crate::handles;
use crate::handles::{HandleTable, TableOp, TableState};
use crate::protocol as proto;
use crate::protocol::hip;
use crate::protocol::hip_op;
use crate::protocol::wire::Wire;

verus! {

broadcast use crate::protocol::bytes::lemma_append_to_empty;

/// Server object kind for a HIP device-pointer handle.
pub const KIND_HIP_DEVICE_PTR: u8 = 30;

/// Server object kind for a HIP stream handle.
pub const KIND_HIP_STREAM: u8 = 31;

/// Server-side state tracked for one HIP allocation.
#[derive(Debug)]
pub struct HipMemState {
    /// Size of the allocation in bytes.
    pub size: u64,
}

/// Server-side state tracked for one created HIP stream.
#[derive(Debug)]
pub struct HipStreamState {

}

/// Pure-Rust HIP backend stub.
///
/// Owns generational handle tables for the HIP objects it tracks. It answers
/// [`hip_op::MALLOC`](proto::hip_op::MALLOC) by minting a device-pointer
/// handle, [`hip_op::FREE`](proto::hip_op::FREE) by removing a known
/// device-pointer handle and acknowledging with an empty body, and
/// [`hip_op::STREAM_CREATE`](proto::hip_op::STREAM_CREATE) by minting a stream
/// handle. The real driver bridge lands later; every other HIP
/// call is reported as not-yet-implemented via
/// [`ProtocolError::UnknownOpcode`](proto::ProtocolError::UnknownOpcode).
pub struct HipBackend {
    /// The allocations.
    pub allocations: HandleTable<HipMemState>,
    /// The streams.
    pub streams: HandleTable<HipStreamState>,
}

/// What the HIP backend holds.
pub ghost struct HipState {
    /// The allocations.
    pub allocations: TableState<HipMemState>,
    /// The streams.
    pub streams: TableState<HipStreamState>,
}

impl HipState {
    /// The state without objects.
    pub open spec fn empty() -> Self {
        HipState { allocations: TableState::empty(), streams: TableState::empty() }
    }
}

impl Machine for HipState {
    open spec fn ok(self) -> bool {
        &&& self.allocations.inv()
        &&& self.streams.inv()
    }

    open spec fn step(self, call: Call) -> (Self, Answer) {
        let unknown: (Self, Answer) = (self, Err(proto::ProtocolError::UnknownOpcode(call.opcode)));
        if call.opcode == hip_op::MALLOC {
            match hip::MallocRequest::parse(call.body) {
                Err(e) => (self, Err(e)),
                Ok(req) => (
                    HipState {
                        allocations: self.allocations.inserted(HipMemState { size: req.size }),
                        ..self
                    },
                    Ok(
                        (hip::MallocResponse {
                            dptr: self.allocations.next_handle(KIND_HIP_DEVICE_PTR),
                        }).bytes(),
                    ),
                ),
            }
        } else if call.opcode == hip_op::FREE {
            match hip::FreeRequest::parse(call.body) {
                Err(e) => (self, Err(e)),
                Ok(req) => if self.allocations.lookup(req.dptr) is Some {
                    (
                        HipState { allocations: self.allocations.removed(req.dptr), ..self },
                        Ok(seq![]),
                    )
                } else {
                    unknown
                },
            }
        } else if call.opcode == hip_op::STREAM_CREATE {
            (
                HipState {
                    streams: self.streams.inserted(HipStreamState {  }),
                    ..self
                },
                Ok(
                    (hip::StreamCreateResponse {
                        stream: self.streams.next_handle(KIND_HIP_STREAM),
                    }).bytes(),
                ),
            )
        } else {
            unknown
        }
    }

    proof fn law_step_keeps(self, call: Call) {
        crate::handles::law_table_keeps(self.allocations);
        crate::handles::law_table_keeps(self.streams);
    }

    proof fn law_refusal_changes_nothing(self, call: Call) {
    }

    proof fn law_req_id_plays_no_part(self, call: Call, req_id: u32) {
    }
}

impl View for HipBackend {
    type V = HipState;

    open spec fn view(&self) -> HipState {
        HipState { allocations: self.allocations@, streams: self.streams@ }
    }
}

impl HipBackend {
    /// Create a new HIP backend stub with empty object tables.
    #[must_use]
    pub fn new() -> (backend: Self)
        ensures
            backend.inv(),
            backend@ == HipState::empty(),
    {
        Self { allocations: HandleTable::new(), streams: HandleTable::new() }
    }
}

impl Default for HipBackend {
    fn default() -> (backend: Self)
        ensures
            backend.inv(),
            backend@ == HipState::empty(),
    {
        Self::new()
    }
}

impl Backend for HipBackend {
    open spec fn inv(&self) -> bool {
        &&& self.allocations.wf()
        &&& self.streams.wf()
    }

    open spec fn spec_api(&self) -> proto::ApiId {
        proto::ApiId::Hip
    }

    open spec fn answer(&self, past: Seq<Call>, call: Call) -> Answer {
        super::backend::run_answer(self@, past, call)
    }

    fn api(&self) -> (api: proto::ApiId) {
        proto::ApiId::Hip
    }

    fn handle(
        &mut self,
        opcode: u32,
        req_id: u32,
        body: &[u8],
    ) -> (r: Result<Vec<u8>, proto::ProtocolError>)
        ensures
            (final(self)@, super::backend::answer_of(r)) == old(self)@.step(
                Call { opcode, req_id, body: body@ },
            ),
    {
        proof {
            super::backend::law_step_then_answer(self@, Call { opcode, req_id, body: body@ });
        }
        // Reject anything outside the HIP namespace outright.
        if proto::opcode_api(opcode) != proto::ApiId::Hip.to_byte() {
            return Err(proto::ProtocolError::UnknownOpcode(opcode));
        }
        match opcode {
            hip_op::MALLOC => {
                let req = hip::MallocRequest::decode(body)?;
                let dptr = self.allocations.insert(
                    KIND_HIP_DEVICE_PTR,
                    HipMemState { size: req.size },
                );
                let mut out: Vec<u8> = Vec::new();
                (hip::MallocResponse { dptr }).encode(&mut out);
                Ok(out)
            },
            hip_op::FREE => {
                let req = hip::FreeRequest::decode(body)?;
                // The device pointer must have been allocated on this backend and
                // still be live; removing it both validates and frees it.
                if self.allocations.remove(req.dptr).is_none() {
                    return Err(proto::ProtocolError::UnknownOpcode(opcode));
                }
                // Acknowledge with an empty body.
                Ok(Vec::new())
            },
            hip_op::STREAM_CREATE => {
                // The request body is empty; mint a fresh stream handle.
                let stream = self.streams.insert(KIND_HIP_STREAM, HipStreamState {  });
                let mut out: Vec<u8> = Vec::new();
                (hip::StreamCreateResponse { stream }).encode(&mut out);
                Ok(out)
            },
            // Everything else in the HIP namespace is not implemented yet.
            other => Err(proto::ProtocolError::UnknownOpcode(other)),
        }
    }
}

impl Keeps<HipMemState> for HipState {
    open spec fn table(self) -> TableState<HipMemState> {
        self.allocations
    }

    open spec fn op(self, call: Call) -> TableOp<HipMemState> {
        if call.opcode == hip_op::MALLOC {
            match hip::MallocRequest::parse(call.body) {
                Ok(req) => TableOp::Insert(HipMemState { size: req.size }),
                Err(_) => TableOp::Read,
            }
        } else if call.opcode == hip_op::FREE {
            match hip::FreeRequest::parse(call.body) {
                Ok(req) => TableOp::Remove(req.dptr),
                Err(_) => TableOp::Read,
            }
        } else {
            TableOp::Read
        }
    }

    proof fn law_call_is_op(self, call: Call) {
    }
}

impl Keeps<HipStreamState> for HipState {
    open spec fn table(self) -> TableState<HipStreamState> {
        self.streams
    }

    open spec fn op(self, call: Call) -> TableOp<HipStreamState> {
        if call.opcode == hip_op::STREAM_CREATE {
            TableOp::Insert(HipStreamState {  })
        } else {
            TableOp::Read
        }
    }

    proof fn law_call_is_op(self, call: Call) {
    }
}

/// Whether `call` is a [`hip_op::FREE`] that names the object of `h`.
pub open spec fn is_free(call: Call, h: proto::Handle) -> bool {
    &&& call.opcode == hip_op::FREE
    &&& hip::FreeRequest::parse(call.body) matches Ok(req)
    &&& handles::same_object(req.dptr, h)
}

/// The history of the allocations: a call has made the object of a handle if and
/// only if it was a [`hip_op::MALLOC`] answered with a handle of the same slot and
/// generation, and takes it away if and only if it is a [`hip_op::FREE`] that names
/// it.
pub proof fn law_allocations_history(past: Seq<Call>, i: int, h: proto::Handle)
    ensures
        backend::makes::<HipMemState, HipState>(HipState::empty(), past, i, h) <==> {
            &&& 0 <= i < past.len()
            &&& past[i].opcode == hip_op::MALLOC
            &&& exists|g: proto::Handle| #[trigger]
                handles::same_object(g, h) && backend::run_answer(
                    HipState::empty(),
                    past.take(i),
                    past[i],
                ) == Answer::Ok((hip::MallocResponse { dptr: g }).bytes())
        },
        backend::takes::<HipMemState, HipState>(HipState::empty(), past, i, h)
            <==> 0 <= i < past.len() && is_free(past[i], h),
{
    if 0 <= i < past.len() {
        let s = backend::run_state(HipState::empty(), past.take(i));
        let made = s.allocations.next_handle(KIND_HIP_DEVICE_PTR);
        backend::law_answer_of_state(HipState::empty(), past.take(i), past[i]);
        handles::law_next_handle_kinds(s.allocations, 0, KIND_HIP_DEVICE_PTR);
        let of_made = hip::MallocResponse { dptr: made };
        of_made.law_whole();
        if backend::makes::<HipMemState, HipState>(HipState::empty(), past, i, h) {
            assert(handles::same_object(made, h));
        }
        if exists|g: proto::Handle| #[trigger]
            handles::same_object(g, h) && backend::run_answer(
                HipState::empty(),
                past.take(i),
                past[i],
            ) == Answer::Ok((hip::MallocResponse { dptr: g }).bytes()) {
            let g = choose|g: proto::Handle| #[trigger]
                handles::same_object(g, h) && backend::run_answer(
                    HipState::empty(),
                    past.take(i),
                    past[i],
                ) == Answer::Ok((hip::MallocResponse { dptr: g }).bytes());
            let of_g = hip::MallocResponse { dptr: g };
            of_g.law_whole();
        }
    }
}

/// No two [`hip_op::MALLOC`] calls are answered with handles of the same slot and
/// generation, and each handle is of its kind.
pub proof fn law_malloc_issues_once(
    past: Seq<Call>,
    i: int,
    j: int,
    g: proto::Handle,
    h: proto::Handle,
)
    requires
        0 <= i < j < past.len(),
        past[i].opcode == hip_op::MALLOC,
        past[j].opcode == hip_op::MALLOC,
        backend::run_answer(HipState::empty(), past.take(i), past[i]) == Answer::Ok(
            (hip::MallocResponse { dptr: g }).bytes(),
        ),
        backend::run_answer(HipState::empty(), past.take(j), past[j]) == Answer::Ok(
            (hip::MallocResponse { dptr: h }).bytes(),
        ),
        backend::run_state(HipState::empty(), past).allocations.slots.len() <= 0x1_0000_0000,
    ensures
        !handles::same_object(g, h),
        g.spec_kind() == KIND_HIP_DEVICE_PTR,
        h.spec_kind() == KIND_HIP_DEVICE_PTR,
{
    let empty = HipState::empty();
    let s = backend::run_state(empty, past.take(i));
    let t = backend::run_state(empty, past.take(j));
    backend::law_answer_of_state(empty, past.take(i), past[i]);
    backend::law_answer_of_state(empty, past.take(j), past[j]);
    let of_g = hip::MallocResponse { dptr: g };
    of_g.law_whole();
    let of_h = hip::MallocResponse { dptr: h };
    of_h.law_whole();
    let made_i = s.allocations.next_handle(KIND_HIP_DEVICE_PTR);
    let of_made_i = hip::MallocResponse { dptr: made_i };
    of_made_i.law_whole();
    let made_j = t.allocations.next_handle(KIND_HIP_DEVICE_PTR);
    let of_made_j = hip::MallocResponse { dptr: made_j };
    of_made_j.law_whole();
    backend::law_made_once::<HipMemState, HipState>(empty, past, i, j, KIND_HIP_DEVICE_PTR);
}

/// The history of the streams: a call has made the object of a handle if and only
/// if it was a [`hip_op::STREAM_CREATE`] answered with a handle of the same slot
/// and generation, and no call takes one away.
pub proof fn law_streams_history(past: Seq<Call>, i: int, h: proto::Handle)
    ensures
        backend::makes::<HipStreamState, HipState>(HipState::empty(), past, i, h) <==> {
            &&& 0 <= i < past.len()
            &&& past[i].opcode == hip_op::STREAM_CREATE
            &&& exists|g: proto::Handle| #[trigger]
                handles::same_object(g, h) && backend::run_answer(
                    HipState::empty(),
                    past.take(i),
                    past[i],
                ) == Answer::Ok((hip::StreamCreateResponse { stream: g }).bytes())
        },
        !backend::takes::<HipStreamState, HipState>(HipState::empty(), past, i, h),
{
    if 0 <= i < past.len() {
        let s = backend::run_state(HipState::empty(), past.take(i));
        let made = s.streams.next_handle(KIND_HIP_STREAM);
        backend::law_answer_of_state(HipState::empty(), past.take(i), past[i]);
        handles::law_next_handle_kinds(s.streams, 0, KIND_HIP_STREAM);
        let of_made = hip::StreamCreateResponse { stream: made };
        of_made.law_whole();
        if backend::makes::<HipStreamState, HipState>(HipState::empty(), past, i, h) {
            assert(handles::same_object(made, h));
        }
        if exists|g: proto::Handle| #[trigger]
            handles::same_object(g, h) && backend::run_answer(
                HipState::empty(),
                past.take(i),
                past[i],
            ) == Answer::Ok((hip::StreamCreateResponse { stream: g }).bytes()) {
            let g = choose|g: proto::Handle| #[trigger]
                handles::same_object(g, h) && backend::run_answer(
                    HipState::empty(),
                    past.take(i),
                    past[i],
                ) == Answer::Ok((hip::StreamCreateResponse { stream: g }).bytes());
            let of_g = hip::StreamCreateResponse { stream: g };
            of_g.law_whole();
        }
    }
}

/// No two [`hip_op::STREAM_CREATE`] calls are answered with handles of the same
/// slot and generation, and each handle is of its kind.
pub proof fn law_stream_create_issues_once(
    past: Seq<Call>,
    i: int,
    j: int,
    g: proto::Handle,
    h: proto::Handle,
)
    requires
        0 <= i < j < past.len(),
        past[i].opcode == hip_op::STREAM_CREATE,
        past[j].opcode == hip_op::STREAM_CREATE,
        backend::run_answer(HipState::empty(), past.take(i), past[i]) == Answer::Ok(
            (hip::StreamCreateResponse { stream: g }).bytes(),
        ),
        backend::run_answer(HipState::empty(), past.take(j), past[j]) == Answer::Ok(
            (hip::StreamCreateResponse { stream: h }).bytes(),
        ),
        backend::run_state(HipState::empty(), past).streams.slots.len() <= 0x1_0000_0000,
    ensures
        !handles::same_object(g, h),
        g.spec_kind() == KIND_HIP_STREAM,
        h.spec_kind() == KIND_HIP_STREAM,
{
    let empty = HipState::empty();
    let s = backend::run_state(empty, past.take(i));
    let t = backend::run_state(empty, past.take(j));
    backend::law_answer_of_state(empty, past.take(i), past[i]);
    backend::law_answer_of_state(empty, past.take(j), past[j]);
    let of_g = hip::StreamCreateResponse { stream: g };
    of_g.law_whole();
    let of_h = hip::StreamCreateResponse { stream: h };
    of_h.law_whole();
    let made_i = s.streams.next_handle(KIND_HIP_STREAM);
    let of_made_i = hip::StreamCreateResponse { stream: made_i };
    of_made_i.law_whole();
    let made_j = t.streams.next_handle(KIND_HIP_STREAM);
    let of_made_j = hip::StreamCreateResponse { stream: made_j };
    of_made_j.law_whole();
    backend::law_made_once::<HipStreamState, HipState>(empty, past, i, j, KIND_HIP_STREAM);
}

/// A [`hip_op::FREE`] is answered if and only if the allocation it names was made
/// by an earlier call and not taken away since; else it is refused.
pub proof fn law_free_iff_live(past: Seq<Call>, call: Call)
    requires
        call.opcode == hip_op::FREE,
        hip::FreeRequest::parse(call.body) is Ok,
        backend::run_state(HipState::empty(), past).allocations.slots.len() <= 0x1_0000_0000,
    ensures
        ({
            let h = hip::FreeRequest::parse(call.body)->Ok_0.dptr;
            if backend::is_live::<HipMemState, HipState>(HipState::empty(), past, h) {
                backend::run_answer(HipState::empty(), past, call) == Answer::Ok(seq![])
            } else {
                backend::run_answer(HipState::empty(), past, call) == Answer::Err(
                    proto::ProtocolError::UnknownOpcode(call.opcode),
                )
            }
        }),
{
    let h = hip::FreeRequest::parse(call.body)->Ok_0.dptr;
    backend::law_live_is_history::<HipMemState, HipState>(HipState::empty(), past, h);
    backend::law_answer_of_state(HipState::empty(), past, call);
}

/// What [`hip_op::MALLOC`] hands out can be used for [`hip_op::FREE`], whatever
/// calls come between that do not take it away.
pub proof fn law_malloc_then_free(
    s: HipState,
    make: Call,
    past: Seq<Call>,
    call: Call,
)
    requires
        s.ok(),
        s.allocations.free.len() > 0 || s.allocations.slots.len() < 0x1_0000_0000,
        make.opcode == hip_op::MALLOC,
        hip::MallocRequest::parse(make.body) is Ok,
        call.opcode == hip_op::FREE,
        hip::FreeRequest::parse(call.body) matches Ok(req) && handles::same_object(
            req.dptr,
            s.allocations.next_handle(KIND_HIP_DEVICE_PTR),
        ),
        forall|j: int| 0 <= j < past.len() ==> !is_free(
            #[trigger] past[j],
            s.allocations.next_handle(KIND_HIP_DEVICE_PTR),
        ),
    ensures
        s.step(make).1 == Answer::Ok(
            (hip::MallocResponse { dptr: s.allocations.next_handle(KIND_HIP_DEVICE_PTR) }).bytes(),
        ),
        backend::run_answer(s.step(make).0, past, call) == Answer::Ok(seq![]),
{
    let req = hip::MallocRequest::parse(make.body)->Ok_0;
    handles::law_insert_resolves(
        s.allocations,
        KIND_HIP_DEVICE_PTR,
        HipMemState { size: req.size },
    );
    let h = s.allocations.next_handle(KIND_HIP_DEVICE_PTR);
    let after = s.step(make).0;
    s.law_step_keeps(make);
    backend::law_answer_of_state(after, past, call);
    assert forall|j: int| !(#[trigger] backend::takes::<HipMemState, HipState>(
        after,
        past,
        j,
        h,
    )) by {
        if 0 <= j < past.len() {
            assert(!is_free(past[j], h));
        }
    }
    backend::law_stays_live::<HipMemState, HipState>(after, past, h);
}

/// What a [`hip_op::FREE`] has taken away stays away: a call that names the same
/// object is refused afterwards, whatever calls come between.
pub proof fn law_free_is_final(
    s: HipState,
    h: proto::Handle,
    past: Seq<Call>,
    call: Call,
    again: Call,
)
    requires
        s.ok(),
        s.allocations.lookup(h) is Some,
        is_free(call, h),
        is_free(again, h),
    ensures
        s.step(call).1 == Answer::Ok(seq![]),
        backend::run_answer(s.step(call).0, past, again)
            == Answer::Err(proto::ProtocolError::UnknownOpcode(again.opcode)),
{
    s.law_step_keeps(call);
    backend::law_answer_of_state(s.step(call).0, past, again);
    backend::law_gone_stays_gone::<HipMemState, HipState>(s.step(call).0, past, h);
}

/// A [`hip_op::MALLOC`] is always answered, whatever calls came before and whatever
/// bytes follow the request, with a handle of its kind. As long as a slot index is
/// left, the handle names an allocation that was not there before and that holds
/// what was asked for; nothing else changes.
pub proof fn law_malloc_answered(
    s: HipState,
    req: hip::MallocRequest,
    rest: Seq<u8>,
    req_id: u32,
) -> (h: proto::Handle)
    ensures
        ({
            let call = Call { opcode: hip_op::MALLOC, req_id, body: req.bytes() + rest };
            let (after, answer) = s.step(call);
            &&& answer == Answer::Ok((hip::MallocResponse { dptr: h }).bytes())
            &&& h.spec_kind() == KIND_HIP_DEVICE_PTR
            &&& s.ok() && (s.allocations.free.len() > 0 || s.allocations.slots.len()
                < 0x1_0000_0000) ==> {
                &&& s.allocations.lookup(h) is None
                &&& after.allocations.lookup(h) == Some(HipMemState { size: req.size })
                &&& forall|g: proto::Handle|
                    !handles::same_object(g, h) ==> #[trigger] after.allocations.lookup(g)
                        == s.allocations.lookup(g)
            }
            &&& after.streams == s.streams
        }),
{
    req.law_round_trip(rest);
    handles::law_insert_issues(
        s.allocations,
        KIND_HIP_DEVICE_PTR,
        HipMemState { size: req.size },
    );
    s.allocations.next_handle(KIND_HIP_DEVICE_PTR)
}

/// A [`hip_op::STREAM_CREATE`] is always answered, whatever calls came before and
/// whatever its body holds, with a handle of its kind. As long as a slot index is
/// left, the handle names a stream that was not there before; nothing else changes.
pub proof fn law_stream_create_answered(
    s: HipState,
    body: Seq<u8>,
    req_id: u32,
) -> (h: proto::Handle)
    ensures
        ({
            let call = Call { opcode: hip_op::STREAM_CREATE, req_id, body };
            let (after, answer) = s.step(call);
            &&& answer == Answer::Ok((hip::StreamCreateResponse { stream: h }).bytes())
            &&& h.spec_kind() == KIND_HIP_STREAM
            &&& s.ok() && (s.streams.free.len() > 0 || s.streams.slots.len()
                < 0x1_0000_0000) ==> {
                &&& s.streams.lookup(h) is None
                &&& after.streams.lookup(h) == Some(HipStreamState {  })
                &&& forall|g: proto::Handle|
                    !handles::same_object(g, h) ==> #[trigger] after.streams.lookup(g)
                        == s.streams.lookup(g)
            }
            &&& after.allocations == s.allocations
        }),
{
    handles::law_insert_issues(s.streams, KIND_HIP_STREAM, HipStreamState {  });
    s.streams.next_handle(KIND_HIP_STREAM)
}

/// A [`hip_op::FREE`] takes away the allocation it names, and nothing else, and is
/// acknowledged with an empty body; where there is no such allocation it is refused
/// by its opcode and nothing changes. What follows the request plays no part.
pub proof fn law_free_takes_one(
    s: HipState,
    req: hip::FreeRequest,
    rest: Seq<u8>,
    req_id: u32,
)
    ensures
        ({
            let call = Call { opcode: hip_op::FREE, req_id, body: req.bytes() + rest };
            let (after, answer) = s.step(call);
            &&& s.allocations.lookup(req.dptr) is Some ==> {
                &&& answer == Answer::Ok(seq![])
                &&& forall|g: proto::Handle|
                    handles::same_object(g, req.dptr) ==> #[trigger] after.allocations.lookup(
                        g,
                    ) is None
            }
            &&& s.allocations.lookup(req.dptr) is None ==> {
                &&& answer == Answer::Err(
                    proto::ProtocolError::UnknownOpcode(hip_op::FREE),
                )
                &&& after == s
            }
            &&& forall|g: proto::Handle|
                !handles::same_object(g, req.dptr) ==> #[trigger] after.allocations.lookup(g)
                    == s.allocations.lookup(g)
            &&& after.streams == s.streams
        }),
{
    req.law_round_trip(rest);
    handles::law_remove_takes_one(s.allocations, req.dptr);
}

/// A call whose body is too short for its request is refused as an unexpected end,
/// and changes nothing.
pub proof fn law_short_bodies_refused(s: HipState, call: Call)
    requires
        ({
            ||| call.opcode == hip_op::MALLOC && call.body.len() < 8
            ||| call.opcode == hip_op::FREE && call.body.len() < 8
        }),
    ensures
        s.step(call) == (s, Answer::Err(proto::ProtocolError::UnexpectedEof)),
{
}

/// Only calls of the backend's own namespace are answered. Every other opcode, of
/// the namespace or not, is refused by that opcode, whatever its body holds, and
/// changes nothing.
pub proof fn law_other_calls_refused(s: HipState, call: Call)
    ensures
        s.step(call).1 is Ok ==> call.opcode / 0x100_0000 == proto::ApiId::Hip.byte(),
        ({
            &&& call.opcode != hip_op::MALLOC
            &&& call.opcode != hip_op::STREAM_CREATE
            &&& call.opcode != hip_op::FREE
        }) ==> s.step(call) == (
            s,
            Answer::Err(proto::ProtocolError::UnknownOpcode(call.opcode)),
        ),
{
}

/// A new backend serves the namespace of its API, and holds nothing that a handle
/// resolves to.
pub proof fn law_new_backend(
    backend: HipBackend,
    reader: &HipBackend,
    api: proto::ApiId,
    h: proto::Handle,
)
    requires
        call_ensures(HipBackend::new, (), backend),
        call_ensures(<HipBackend as Backend>::api, (reader,), api),
    ensures
        api == proto::ApiId::Hip,
        api.byte() == 5,
        backend.inv(),
        backend@.allocations.lookup(h) is None,
        backend@.streams.lookup(h) is None,
{
}

} // verus!
