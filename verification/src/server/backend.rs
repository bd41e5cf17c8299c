//! Per-API backend dispatch.
//!
//! The [`Session`](crate::server::Session) routes any non-core opcode to the
//! [`Backend`] registered for that opcode's API namespace. A backend receives
//! the decoded opcode, the request correlation id, and the request body; it
//! returns the *response body* bytes, which the session wraps into a `Response`
//! frame.
use vstd::prelude::*;

use crate::handles::{TableOp, TableState};
use crate::protocol as proto;
use crate::protocol::Handle;

verus! {

/// One request as a backend receives it.
pub ghost struct Call {
    /// The opcode of the request.
    pub opcode: u32,
    /// The correlation id of the request.
    pub req_id: u32,
    /// The request body.
    pub body: Seq<u8>,
}

/// What a backend answers to a call: the response body, or why there is none.
pub type Answer = Result<Seq<u8>, proto::ProtocolError>;

/// A returned response body as an [`Answer`].
pub open spec fn answer_of(r: Result<Vec<u8>, proto::ProtocolError>) -> Answer {
    match r {
        Ok(body) => Ok(body@),
        Err(e) => Err(e),
    }
}

/// A handler for one API namespace (one [`ApiId`](proto::ApiId)).
///
/// Implementors validate and replay the calls in their namespace and return the
/// response *body*; the session is responsible for framing (opcode, `req_id`,
/// and the server-stamped `seq`).
///
/// A backend is described by what it would answer: [`Backend::answer`] is its
/// answer to a call that comes after a run of other calls. Handling a call
/// gives the answer due now, and leaves the answers due afterwards.
pub trait Backend: Send {
    /// What the backend keeps true between calls.
    spec fn inv(&self) -> bool;

    /// The API namespace of the backend.
    spec fn spec_api(&self) -> proto::ApiId;

    /// The answer to `call` once the calls of `past` have been handled.
    spec fn answer(&self, past: Seq<Call>, call: Call) -> Answer;

    /// The API namespace this backend serves. The session routes opcodes whose
    /// [`opcode_api`](proto::opcode_api) matches this id here.
    fn api(&self) -> (api: proto::ApiId)
        ensures
            api == self.spec_api(),
    ;

    /// Handle one decoded request, returning the response body bytes.
    fn handle(
        &mut self,
        opcode: u32,
        req_id: u32,
        body: &[u8],
    ) -> (r: Result<Vec<u8>, proto::ProtocolError>)
        requires
            old(self).inv(),
        ensures
            final(self).inv(),
            final(self).spec_api() == old(self).spec_api(),
            answer_of(r) == old(self).answer(seq![], Call { opcode, req_id, body: body@ }),
            forall|past: Seq<Call>, call: Call| #[trigger]
                final(self).answer(past, call) == old(self).answer(
                    seq![Call { opcode, req_id, body: body@ }] + past,
                    call,
                ),
    ;
}

/// A state that takes calls one at a time.
pub trait Machine: Sized {
    /// What every state that can be reached keeps.
    spec fn ok(self) -> bool;

    /// The state after `call`, and the answer to it.
    spec fn step(self, call: Call) -> (Self, Answer);

    /// A call keeps what every state keeps.
    proof fn law_step_keeps(self, call: Call)
        requires
            self.ok(),
        ensures
            self.step(call).0.ok(),
    ;

    /// A call that is refused changes nothing.
    proof fn law_refusal_changes_nothing(self, call: Call)
        ensures
            self.step(call).1 is Err ==> self.step(call).0 == self,
    ;

    /// The correlation id of a call plays no part.
    proof fn law_req_id_plays_no_part(self, call: Call, req_id: u32)
        ensures
            self.step(Call { req_id, ..call }) == self.step(call),
    ;
}

/// A machine that keeps objects of type `T` in a handle table.
pub trait Keeps<T>: Machine {
    /// The table.
    spec fn table(self) -> TableState<T>;

    /// What `call` does to the table.
    spec fn op(self, call: Call) -> TableOp<T>;

    /// A call does to the table what [`Keeps::op`] says, and every state that can
    /// be reached keeps the table's invariant.
    proof fn law_call_is_op(self, call: Call)
        ensures
            self.step(call).0.table() == crate::handles::apply(self.table(), self.op(call)),
            self.ok() ==> self.table().inv(),
    ;
}

/// The answer to `call` of a machine in state `s` once the calls of `past` have
/// been handled.
pub open spec fn run_answer<S: Machine>(s: S, past: Seq<Call>, call: Call) -> Answer
    decreases past.len(),
{
    if past.len() == 0 {
        s.step(call).1
    } else {
        run_answer(s.step(past[0]).0, past.skip(1), call)
    }
}

/// What is due after one step is what was due after that step's call.
pub proof fn law_step_then_answer<S: Machine>(s: S, first: Call)
    ensures
        forall|past: Seq<Call>, call: Call| #[trigger]
            run_answer(s.step(first).0, past, call) == run_answer(s, seq![first] + past, call),
{
    assert forall|past: Seq<Call>, call: Call| #[trigger]
        run_answer(s.step(first).0, past, call) == run_answer(s, seq![first] + past, call) by {
        assert((seq![first] + past)[0] == first);
        assert((seq![first] + past).skip(1) =~= past);
    }
}

/// The state of a machine after the calls of `past`.
pub open spec fn run_state<S: Machine>(s: S, past: Seq<Call>) -> S
    decreases past.len(),
{
    if past.len() == 0 {
        s
    } else {
        run_state(s.step(past[0]).0, past.skip(1))
    }
}

/// The answer that is due after some calls is that of the state they lead to.
pub proof fn law_answer_of_state<S: Machine>(s: S, past: Seq<Call>, call: Call)
    ensures
        run_answer(s, past, call) == run_state(s, past).step(call).1,
    decreases past.len(),
{
    if past.len() > 0 {
        law_answer_of_state(s.step(past[0]).0, past.skip(1), call);
    }
}

/// Every run of calls keeps what every state keeps.
pub proof fn law_run_keeps<S: Machine>(s: S, past: Seq<Call>)
    requires
        s.ok(),
    ensures
        run_state(s, past).ok(),
    decreases past.len(),
{
    if past.len() > 0 {
        s.law_step_keeps(past[0]);
        law_run_keeps(s.step(past[0]).0, past.skip(1));
    }
}

/// The last call of a run is one step from the state before it.
proof fn lemma_run_last<S: Machine>(s: S, past: Seq<Call>)
    requires
        past.len() > 0,
    ensures
        run_state(s, past) == run_state(s, past.drop_last()).step(past.last()).0,
    decreases past.len(),
{
    reveal_with_fuel(run_state, 2);
    if past.len() > 1 {
        lemma_run_last(s.step(past[0]).0, past.skip(1));
        assert(past.skip(1).drop_last() =~= past.drop_last().skip(1));
    } else {
        assert(past.skip(1) =~= seq![]);
        assert(past.drop_last() =~= seq![]);
    }
}

/// What the calls of a run do to the table, one after the other.
pub open spec fn ops_of<T, S: Keeps<T>>(s: S, past: Seq<Call>) -> Seq<TableOp<T>> {
    Seq::new(past.len(), |i: int| run_state(s, past.take(i)).op(past[i]))
}

/// After a run of calls the table is what their operations make of it.
pub proof fn law_table_is_run<T, S: Keeps<T>>(s: S, past: Seq<Call>)
    ensures
        run_state(s, past).table() == crate::handles::run(s.table(), ops_of::<T, S>(s, past)),
        forall|n: int|
            0 <= n <= past.len() ==> #[trigger] ops_of::<T, S>(s, past).take(n) == ops_of::<T, S>(
                s,
                past.take(n),
            ),
    decreases past.len(),
{
    assert forall|n: int| 0 <= n <= past.len() implies #[trigger] ops_of::<T, S>(s, past).take(n)
        == ops_of::<T, S>(s, past.take(n)) by {
        assert forall|i: int| 0 <= i < n implies #[trigger] ops_of::<T, S>(s, past)[i] == ops_of::<
            T,
            S,
        >(s, past.take(n))[i] by {
            assert(past.take(n).take(i) =~= past.take(i));
        }
        assert(ops_of::<T, S>(s, past).take(n) =~= ops_of::<T, S>(s, past.take(n)));
    }
    if past.len() > 0 {
        let front = past.drop_last();
        assert(past.take(past.len() - 1) =~= front);
        law_table_is_run::<T, S>(s, front);
        lemma_run_last(s, past);
        run_state(s, front).law_call_is_op(past.last());
        assert(ops_of::<T, S>(s, past).drop_last() =~= ops_of::<T, S>(s, past).take(
            past.len() - 1,
        ));
    }
}

/// Call `i` of a run has made the object that `h` names.
pub open spec fn makes<T, S: Keeps<T>>(s: S, past: Seq<Call>, i: int, h: Handle) -> bool {
    &&& 0 <= i < past.len()
    &&& run_state(s, past.take(i)).op(past[i]) is Insert
    &&& crate::handles::same_object(run_state(s, past.take(i)).table().next_handle(0), h)
}

/// Call `j` of a run takes away the object that `h` names.
pub open spec fn takes<T, S: Keeps<T>>(s: S, past: Seq<Call>, j: int, h: Handle) -> bool {
    &&& 0 <= j < past.len()
    &&& crate::handles::removes(run_state(s, past.take(j)).op(past[j]), h)
}

/// Some call of a run has made the object that `h` names, and none after it takes
/// it away.
pub open spec fn is_live<T, S: Keeps<T>>(s: S, past: Seq<Call>, h: Handle) -> bool {
    exists|i: int| #[trigger]
        makes::<T, S>(s, past, i, h) && forall|j: int| i < j ==> !(#[trigger] takes::<T, S>(
            s,
            past,
            j,
            h,
        ))
}

/// From the state without objects, a handle resolves after a run of calls if and
/// only if one of them has made its object and none has taken it away since.
pub proof fn law_live_is_history<T, S: Keeps<T>>(s: S, past: Seq<Call>, h: Handle)
    requires
        s.table() == TableState::<T>::empty(),
        run_state(s, past).table().slots.len() <= 0x1_0000_0000,
    ensures
        run_state(s, past).table().lookup(h) is Some <==> is_live::<T, S>(s, past, h),
{
    let ops = ops_of::<T, S>(s, past);
    law_table_is_run::<T, S>(s, past);
    crate::handles::law_lookup_is_history(ops, h);
    assert forall|i: int| #[trigger] makes::<T, S>(s, past, i, h) == crate::handles::issued_at(
        s.table(),
        ops,
        i,
        h,
    ) by {
        if 0 <= i < past.len() {
            law_table_is_run::<T, S>(s, past.take(i));
            assert(ops.take(i) == ops_of::<T, S>(s, past.take(i)));
        }
    }
    assert forall|j: int| #[trigger] takes::<T, S>(s, past, j, h) == (0 <= j < ops.len()
        && crate::handles::removes(ops[j], h)) by {
    }
    if run_state(s, past).table().lookup(h) is Some {
        let i = choose|i: int| #[trigger] crate::handles::live_from(s.table(), ops, i, h);
        assert(makes::<T, S>(s, past, i, h));
        assert forall|j: int| i < j implies !(#[trigger] takes::<T, S>(s, past, j, h)) by {
            if 0 <= j < ops.len() {
                assert(!crate::handles::removes(ops[j], h));
            }
        }
    }
    if is_live::<T, S>(s, past, h) {
        let i = choose|i: int| #[trigger]
            makes::<T, S>(s, past, i, h) && forall|j: int| i < j ==> !(#[trigger] takes::<T, S>(
                s,
                past,
                j,
                h,
            ));
        assert forall|j: int| i < j < ops.len() implies !crate::handles::removes(
            #[trigger] ops[j],
            h,
        ) by {
            assert(!takes::<T, S>(s, past, j, h));
        }
        assert(crate::handles::live_from(s.table(), ops, i, h));
    }
}

/// An object stays usable whatever calls come, as long as none takes it away.
pub proof fn law_stays_live<T, S: Keeps<T>>(s: S, past: Seq<Call>, h: Handle)
    requires
        s.ok(),
        s.table().lookup(h) is Some,
        forall|j: int| !(#[trigger] takes::<T, S>(s, past, j, h)),
    ensures
        run_state(s, past).table().lookup(h) is Some,
{
    let ops = ops_of::<T, S>(s, past);
    if past.len() > 0 {
        s.law_call_is_op(past[0]);
        law_table_is_run::<T, S>(s, past);
        crate::handles::law_used_forever(s.table(), h, ops);
        assert forall|j: int| 0 <= j < ops.len() implies !crate::handles::removes(
            #[trigger] ops[j],
            h,
        ) by {
            assert(!takes::<T, S>(s, past, j, h));
        }
    }
}

/// A handle whose object is gone resolves to nothing whatever calls come.
pub proof fn law_gone_stays_gone<T, S: Keeps<T>>(s: S, past: Seq<Call>, h: Handle)
    requires
        s.ok(),
        crate::handles::is_stale(s.table(), h),
    ensures
        crate::handles::is_stale(run_state(s, past).table(), h),
        run_state(s, past).table().lookup(h) is None,
{
    let any = Call { opcode: 0, req_id: 0, body: seq![] };
    s.law_call_is_op(any);
    law_table_is_run::<T, S>(s, past);
    crate::handles::law_stale_forever(s.table(), h, ops_of::<T, S>(s, past));
}

/// No two calls of a run issue the same slot and generation, and each handle
/// carries its kind.
pub proof fn law_made_once<T, S: Keeps<T>>(s: S, past: Seq<Call>, i: int, j: int, kind: u8)
    requires
        s.ok(),
        0 <= i < j < past.len(),
        run_state(s, past.take(i)).op(past[i]) is Insert,
        run_state(s, past.take(j)).op(past[j]) is Insert,
        run_state(s, past).table().slots.len() <= 0x1_0000_0000,
    ensures
        !crate::handles::same_object(
            run_state(s, past.take(i)).table().next_handle(kind),
            run_state(s, past.take(j)).table().next_handle(kind),
        ),
        run_state(s, past.take(i)).table().next_handle(kind).spec_kind() == kind,
        run_state(s, past.take(j)).table().next_handle(kind).spec_kind() == kind,
{
    let ops = ops_of::<T, S>(s, past);
    s.law_call_is_op(past[0]);
    law_table_is_run::<T, S>(s, past);
    law_table_is_run::<T, S>(s, past.take(i));
    law_table_is_run::<T, S>(s, past.take(j));
    assert(ops.take(i) == ops_of::<T, S>(s, past.take(i)));
    assert(ops.take(j) == ops_of::<T, S>(s, past.take(j)));
    crate::handles::law_issued_once(s.table(), ops, i, j, kind, kind);
}

} // verus!
