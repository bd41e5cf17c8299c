//! Per-session server state machine: decode, validate, replay.
use std::collections::HashMap;

use vstd::prelude::*;

use super::backend::{Backend, Call, Machine};
use crate::protocol as proto;
use crate::protocol::bytes;
use crate::protocol::core_op;
use crate::protocol::wire::Wire;

verus! {

broadcast use {vstd::std_specs::hash::group_hash_axioms, bytes::lemma_append_to_empty};

/// One client to server session. Owns the negotiated parameters, the outbound
/// sequence counter, and the per-API backend registry. Core opcodes
/// (`HELLO`/`NOOP`) are handled inline; every other opcode is routed to the
/// backend registered for its API namespace.
pub struct Session {
    /// Server-assigned id for this session.
    pub session_id: u64,
    /// Maximum control-frame body accepted, negotiated at handshake.
    pub max_frame_body: u32,
    /// What only the session itself changes.
    pub inner: SessionInner,
}

/// The part of a [`Session`] that only the session itself changes.
pub struct SessionInner {
    /// Whether the handshake has completed.
    handshook: bool,
    /// Next outbound `seq` to stamp on a reply.
    next_seq: u64,
    /// Registered backends, keyed by API namespace byte ([`proto::opcode_api`]).
    backends: HashMap<u8, Box<dyn Backend>>,
}

/// The header and the body of a frame that passes the checks made before
/// anything in it is acted on, or the first check it fails: it is a frame, its
/// declared body fits the limit, and the declared length is the length.
pub open spec fn screen(frame: Seq<u8>, max_frame_body: u32) -> Result<
    (proto::FrameHeader, Seq<u8>),
    proto::ProtocolError,
> {
    match proto::frame::parse_frame(frame) {
        Err(e) => Err(e),
        Ok((h, body)) => if h.body_len > max_frame_body {
            Err(proto::ProtocolError::FrameTooLarge(h.body_len))
        } else if h.body_len != body.len() {
            Err(
                proto::ProtocolError::BodyLenMismatch {
                    declared: h.body_len,
                    actual: body.len() as usize,
                },
            )
        } else {
            Ok((h, body))
        },
    }
}

/// The frame body limit after a client has offered `offered`.
pub open spec fn negotiated(offered: u32) -> u32 {
    if offered < proto::DEFAULT_MAX_FRAME_BODY {
        offered
    } else {
        proto::DEFAULT_MAX_FRAME_BODY
    }
}

/// The parameters that a session confirms.
pub open spec fn welcome(session_id: u64, max_frame_body: u32) -> proto::Welcome {
    proto::Welcome {
        proto_major: proto::PROTOCOL_MAJOR,
        proto_minor: proto::PROTOCOL_MINOR,
        features: 0,
        max_frame_body,
        session_id,
    }
}

/// The backend for `api` has handled `call`, and the others are as they were:
/// what it will answer is what it would have answered after that call.
pub open spec fn has_handled(
    before: Map<u8, Box<dyn Backend>>,
    after: Map<u8, Box<dyn Backend>>,
    api: u8,
    call: Call,
) -> bool {
    &&& after.contains_key(api)
    &&& after.remove(api) == before.remove(api)
    &&& after[api].spec_api() == before[api].spec_api()
    &&& forall|past: Seq<Call>, c: Call| #[trigger]
        after[api].answer(past, c) == before[api].answer(seq![call] + past, c)
}

/// A backend has been registered for namespace `api`: the others and everything
/// else are as they were.
pub open spec fn registered(before: &Session, after: &Session, api: u8) -> bool {
    &&& after.spec_session_id() == before.spec_session_id()
    &&& after.spec_max_frame_body() == before.spec_max_frame_body()
    &&& after.spec_handshook() == before.spec_handshook()
    &&& after.spec_next_seq() == before.spec_next_seq()
    &&& after.spec_backends().contains_key(api)
    &&& after.spec_backends().remove(api) == before.spec_backends().remove(api)
}

/// What handling `frame` makes of a session and returns.
///
/// A frame that fails a check is refused and changes nothing. `HELLO` negotiates
/// the parameters and is answered with `WELCOME`; `NOOP` is answered with an
/// empty body. Every other opcode goes to the backend of its namespace, whose
/// answer is framed under the same opcode and request id, and is refused where
/// there is none. Each reply takes the next sequence number.
pub open spec fn handled(
    before: &Session,
    after: &Session,
    frame: Seq<u8>,
    r: Result<Vec<u8>, proto::ProtocolError>,
) -> bool {
    &&& after.spec_session_id() == before.spec_session_id()
    &&& r is Err ==> after.spec_next_seq() == before.spec_next_seq()
    &&& r is Ok ==> after.spec_next_seq() == before.spec_next_seq() + 1
    &&& match screen(frame, before.spec_max_frame_body()) {
        Err(e) => {
            &&& r == Err::<Vec<u8>, proto::ProtocolError>(e)
            &&& *after == *before
        },
        Ok((h, body)) => if h.opcode == core_op::HELLO {
            &&& after.spec_backends() == before.spec_backends()
            &&& match proto::Hello::parse(body) {
                Err(e) => {
                    &&& r == Err::<Vec<u8>, proto::ProtocolError>(e)
                    &&& *after == *before
                },
                Ok(hello) => if hello.proto_major != proto::PROTOCOL_MAJOR {
                    &&& r == Err::<Vec<u8>, proto::ProtocolError>(
                        proto::ProtocolError::BadVersion {
                            major: hello.proto_major,
                            minor: hello.proto_minor,
                        },
                    )
                    &&& *after == *before
                } else {
                    let limit = negotiated(hello.max_frame_body);
                    &&& r matches Ok(reply) && reply@ == proto::frame::reply_bytes(
                        core_op::WELCOME,
                        h.req_id,
                        before.spec_next_seq(),
                        welcome(before.spec_session_id(), limit).bytes(),
                    )
                    &&& after.spec_max_frame_body() == limit
                    &&& after.spec_handshook()
                },
            }
        } else if h.opcode == core_op::NOOP {
            &&& r matches Ok(reply) && reply@ == proto::frame::reply_bytes(
                core_op::NOOP,
                h.req_id,
                before.spec_next_seq(),
                seq![],
            )
            &&& after.spec_max_frame_body() == before.spec_max_frame_body()
            &&& after.spec_handshook() == before.spec_handshook()
            &&& after.spec_backends() == before.spec_backends()
        } else {
            let api = proto::spec_opcode_api(h.opcode);
            let call = Call { opcode: h.opcode, req_id: h.req_id, body };
            let registered = before.spec_backends();
            let left = after.spec_backends();
            &&& after.spec_max_frame_body() == before.spec_max_frame_body()
            &&& after.spec_handshook() == before.spec_handshook()
            &&& if registered.contains_key(api) {
                &&& has_handled(registered, left, api, call)
                &&& match registered[api].answer(seq![], call) {
                    Ok(resp) => r matches Ok(reply) && reply@ == proto::frame::reply_bytes(
                        h.opcode,
                        h.req_id,
                        before.spec_next_seq(),
                        resp,
                    ),
                    Err(e) => r == Err::<Vec<u8>, proto::ProtocolError>(e),
                }
            } else {
                &&& r == Err::<Vec<u8>, proto::ProtocolError>(
                    proto::ProtocolError::UnknownOpcode(h.opcode),
                )
                &&& left == registered
            }
        },
    }
}

/// Enter a key and its value.
fn put<V>(map: &mut HashMap<u8, V>, entry: (u8, V))
    ensures
        final(map)@ == old(map)@.insert(entry.0, entry.1),
{
    let (key, value) = entry;
    map.insert(key, value);
}

impl Session {
    /// The server-assigned id.
    pub open spec fn spec_session_id(&self) -> u64 {
        self.session_id
    }

    /// The largest frame body accepted.
    pub open spec fn spec_max_frame_body(&self) -> u32 {
        self.max_frame_body
    }

    /// Whether the handshake has completed.
    pub closed spec fn spec_handshook(&self) -> bool {
        self.inner.handshook
    }

    /// The `seq` that the next reply is stamped with.
    pub closed spec fn spec_next_seq(&self) -> u64 {
        self.inner.next_seq
    }

    /// The registered backends by API namespace byte.
    pub closed spec fn spec_backends(&self) -> Map<u8, Box<dyn Backend>> {
        self.inner.backends@
    }

    /// One number has been taken, and nothing else has changed.
    spec fn stamped(&self, before: &Self) -> bool {
        &&& self.session_id == before.session_id
        &&& self.max_frame_body == before.max_frame_body
        &&& self.inner == (SessionInner {
            next_seq: (before.inner.next_seq + 1) as u64,
            ..before.inner
        })
    }

    /// Every registered backend keeps its invariant and serves the namespace it
    /// is registered for.
    pub open spec fn inv(&self) -> bool {
        forall|api: u8| #[trigger]
            self.spec_backends().contains_key(api) ==> {
                &&& self.spec_backends()[api].inv()
                &&& self.spec_backends()[api].spec_api().byte() == api
            }
    }

    /// Create a session with the given server-assigned id.
    pub fn new(session_id: u64) -> (s: Self)
        ensures
            s.inv(),
            s.spec_session_id() == session_id,
            s.spec_max_frame_body() == proto::DEFAULT_MAX_FRAME_BODY,
            !s.spec_handshook(),
            s.spec_next_seq() == 1,
            s.spec_backends() == Map::<u8, Box<dyn Backend>>::empty(),
    {
        Self {
            session_id,
            max_frame_body: proto::DEFAULT_MAX_FRAME_BODY,
            inner: SessionInner { handshook: false, next_seq: 1, backends: HashMap::new() },
        }
    }

    /// Register a backend for its API namespace. A later registration for the
    /// same namespace replaces the earlier one.
    pub fn register(&mut self, backend: Box<dyn Backend>)
        requires
            old(self).inv(),
            backend.inv(),
        ensures
            final(self).inv(),
            registered(old(self), final(self), backend.spec_api().byte()),
            final(self).spec_backends()[backend.spec_api().byte()] == backend,
    {
        let api: u8 = backend.api().to_byte();
        let entry = (api, backend);
        put(&mut self.inner.backends, entry);
        proof {
            let before = old(self).spec_backends();
            assert(self.spec_backends().remove(api) =~= before.remove(api));
            assert forall|k: u8| #[trigger] self.spec_backends().contains_key(k) implies {
                &&& self.spec_backends()[k].inv()
                &&& self.spec_backends()[k].spec_api().byte() == k
            } by {
                if k != api {
                    assert(before.contains_key(k));
                }
            }
        }
    }

    /// Take the `seq` for the next reply.
    fn next_seq(&mut self) -> (seq: u64)
        requires
            old(self).spec_next_seq() < u64::MAX,
        ensures
            seq == old(self).spec_next_seq(),
            final(self).stamped(old(self)),
    {
        let seq: u64 = self.inner.next_seq;
        self.inner.next_seq = self.inner.next_seq + 1;
        seq
    }

    /// Frame a reply.
    fn reply(&mut self, opcode: u32, req_id: u32, body: &[u8]) -> (frame: Vec<u8>)
        requires
            old(self).spec_next_seq() < u64::MAX,
        ensures
            frame@ == proto::frame::reply_bytes(opcode, req_id, old(self).spec_next_seq(), body@),
            final(self).stamped(old(self)),
    {
        let seq: u64 = self.next_seq();
        proto::frame::plain_frame(proto::FrameKind::Response, opcode, req_id, seq, body)
    }

    /// Decode one client frame, validate it, replay it, and return the reply
    /// frame to send back. Every command is validated **before** it reaches any
    /// driver path (the client is untrusted).
    pub fn handle(&mut self, frame: &[u8]) -> (r: Result<Vec<u8>, proto::ProtocolError>)
        requires
            old(self).inv(),
            old(self).spec_next_seq() < u64::MAX,
        ensures
            final(self).inv(),
            handled(old(self), final(self), frame@, r),
    {
        let (h, body) = proto::decode_frame(frame)?;
        // Validate framing before acting on anything.
        if h.body_len > self.max_frame_body {
            return Err(proto::ProtocolError::FrameTooLarge(h.body_len));
        }
        if h.body_len as usize != body.len() {
            return Err(
                proto::ProtocolError::BodyLenMismatch {
                    declared: h.body_len,
                    actual: body.len(),
                },
            );
        }
        match h.opcode {
            core_op::HELLO => {
                let hello = proto::Hello::decode(body)?;
                if hello.proto_major != proto::PROTOCOL_MAJOR {
                    return Err(
                        proto::ProtocolError::BadVersion {
                            major: hello.proto_major,
                            minor: hello.proto_minor,
                        },
                    );
                }
                self.max_frame_body = if hello.max_frame_body < proto::DEFAULT_MAX_FRAME_BODY {
                    hello.max_frame_body
                } else {
                    proto::DEFAULT_MAX_FRAME_BODY
                };
                self.inner.handshook = true;
                let welcome = proto::Welcome {
                    proto_major: proto::PROTOCOL_MAJOR,
                    proto_minor: proto::PROTOCOL_MINOR,
                    features: 0,
                    max_frame_body: self.max_frame_body,
                    session_id: self.session_id,
                };
                let mut wb: Vec<u8> = Vec::new();
                welcome.encode(&mut wb);
                Ok(self.reply(core_op::WELCOME, h.req_id, &wb))
            },
            core_op::NOOP => {
                let empty: Vec<u8> = Vec::new();
                Ok(self.reply(core_op::NOOP, h.req_id, &empty))
            },
            // Any non-core opcode is routed to the backend registered for its
            // API namespace; the backend returns the response body and the
            // session frames it (same opcode, same req_id, server-stamped seq).
            other => {
                let api: u8 = proto::opcode_api(other);
                if let Some(mut backend) = self.inner.backends.remove(&api) {
                    let answer = backend.handle(other, h.req_id, body);
                    let entry = (api, backend);
                    put(&mut self.inner.backends, entry);
                    proof {
                        let before = old(self).spec_backends();
                        assert(self.spec_backends().remove(api) =~= before.remove(api));
                    }
                    let resp = answer?;
                    Ok(self.reply(other, h.req_id, &resp))
                } else {
                    assert(self.spec_backends() =~= old(self).spec_backends());
                    Err(proto::ProtocolError::UnknownOpcode(other))
                }
            },
        }
    }

    /// Whether a number is left to stamp on a reply, so that another frame can be
    /// handled.
    pub fn can_reply(&self) -> (b: bool)
        ensures
            b == (self.spec_next_seq() < u64::MAX),
    {
        self.inner.next_seq < u64::MAX
    }

    /// Whether the opening handshake has completed.
    pub fn is_handshook(&self) -> (b: bool)
        ensures
            b == self.spec_handshook(),
    {
        self.inner.handshook
    }
}

/// The backend that `session` has for namespace `api` answers as a machine in
/// state `state` would.
pub open spec fn serves<S: Machine>(session: &Session, api: u8, state: S) -> bool {
    &&& session.spec_backends().contains_key(api)
    &&& forall|past: Seq<Call>, call: Call| #[trigger]
        session.spec_backends()[api].answer(past, call) == super::backend::run_answer(
            state,
            past,
            call,
        )
}

/// A session takes a call for a namespace that it serves as one step of the
/// machine behind it: the caller gets the machine's answer, framed under its own
/// opcode and request id, and the session goes on with the state after the step.
pub proof fn law_served_call<S: Machine>(
    before: &Session,
    after: &Session,
    state: S,
    frame: Seq<u8>,
    r: Result<Vec<u8>, proto::ProtocolError>,
)
    requires
        handled(before, after, frame, r),
        screen(frame, before.spec_max_frame_body()) matches Ok((h, body)) && h.opcode
            != core_op::HELLO && h.opcode != core_op::NOOP && serves(
            before,
            proto::spec_opcode_api(h.opcode),
            state,
        ),
    ensures
        screen(frame, before.spec_max_frame_body()) matches Ok((h, body)) && {
            let call = Call { opcode: h.opcode, req_id: h.req_id, body };
            &&& serves(after, proto::spec_opcode_api(h.opcode), state.step(call).0)
            &&& match state.step(call).1 {
                Ok(resp) => r matches Ok(reply) && reply@ == proto::frame::reply_bytes(
                    h.opcode,
                    h.req_id,
                    before.spec_next_seq(),
                    resp,
                ),
                Err(e) => r == Err::<Vec<u8>, proto::ProtocolError>(e),
            }
        },
{
    let (h, body) = screen(frame, before.spec_max_frame_body())->Ok_0;
    let call = Call { opcode: h.opcode, req_id: h.req_id, body };
    let api = proto::spec_opcode_api(h.opcode);
    super::backend::law_step_then_answer(state, call);
    let empty = Seq::<Call>::empty();
    assert(before.spec_backends()[api].answer(empty, call) == super::backend::run_answer(
        state,
        empty,
        call,
    ));
    assert forall|past: Seq<Call>, c: Call| #[trigger]
        after.spec_backends()[api].answer(past, c) == super::backend::run_answer(
            state.step(call).0,
            past,
            c,
        ) by {
        assert(before.spec_backends()[api].answer(seq![call] + past, c)
            == super::backend::run_answer(state, seq![call] + past, c));
    }
}

/// A frame that is not for a namespace leaves the backend of that namespace as
/// it was.
pub proof fn law_other_namespace_untouched<S: Machine>(
    before: &Session,
    after: &Session,
    api: u8,
    state: S,
    frame: Seq<u8>,
    r: Result<Vec<u8>, proto::ProtocolError>,
)
    requires
        handled(before, after, frame, r),
        serves(before, api, state),
        screen(frame, before.spec_max_frame_body()) matches Ok((h, _)) ==> proto::spec_opcode_api(
            h.opcode,
        ) != api,
    ensures
        serves(after, api, state),
{
    if let Ok((h, body)) = screen(frame, before.spec_max_frame_body()) {
        let other = proto::spec_opcode_api(h.opcode);
        let registered = before.spec_backends();
        let left = after.spec_backends();
        if left != registered {
            assert(left.remove(other).contains_key(api) == registered.remove(other).contains_key(
                api,
            ));
            assert(left.remove(other)[api] == left[api]);
            assert(registered.remove(other)[api] == registered[api]);
        }
    }
}

/// After a registration, a frame for that namespace goes to the backend that was
/// registered last and to no earlier one: the reply is that backend's answer, and
/// so is what the session will answer. A frame for another namespace goes where
/// it would have gone before, and leaves the new backend as it was. Nothing else
/// of the session is changed by a registration.
pub proof fn law_register_replaces(
    before: &Session,
    mid: &Session,
    after: &Session,
    api: u8,
    frame: Seq<u8>,
    r: Result<Vec<u8>, proto::ProtocolError>,
)
    requires
        registered(before, mid, api),
        handled(mid, after, frame, r),
        screen(frame, before.spec_max_frame_body()) matches Ok((h, _)) && h.opcode != core_op::HELLO
            && h.opcode != core_op::NOOP,
    ensures
        mid.spec_session_id() == before.spec_session_id(),
        mid.spec_max_frame_body() == before.spec_max_frame_body(),
        mid.spec_handshook() == before.spec_handshook(),
        mid.spec_next_seq() == before.spec_next_seq(),
        screen(frame, before.spec_max_frame_body()) matches Ok((h, body)) && {
            let to = proto::spec_opcode_api(h.opcode);
            let call = Call { opcode: h.opcode, req_id: h.req_id, body };
            let asked = if to == api {
                mid.spec_backends()
            } else {
                before.spec_backends()
            };
            &&& asked.contains_key(to) ==> {
                &&& has_handled(mid.spec_backends(), after.spec_backends(), to, call)
                &&& match asked[to].answer(seq![], call) {
                    Ok(resp) => r matches Ok(reply) && reply@ == proto::frame::reply_bytes(
                        h.opcode,
                        h.req_id,
                        before.spec_next_seq(),
                        resp,
                    ),
                    Err(e) => r == Err::<Vec<u8>, proto::ProtocolError>(e),
                }
            }
            &&& !asked.contains_key(to) ==> r == Err::<Vec<u8>, proto::ProtocolError>(
                proto::ProtocolError::UnknownOpcode(h.opcode),
            )
            &&& to != api ==> after.spec_backends().contains_key(api)
                && after.spec_backends()[api] == mid.spec_backends()[api]
        },
{
    let (h, body) = screen(frame, before.spec_max_frame_body())->Ok_0;
    let to = proto::spec_opcode_api(h.opcode);
    let (was, is, left) = (before.spec_backends(), mid.spec_backends(), after.spec_backends());
    if to != api {
        assert(is.remove(api).contains_key(to) == was.remove(api).contains_key(to));
        assert(is.remove(api)[to] == is[to]);
        assert(was.remove(api)[to] == was[to]);
        if left != is {
            assert(left.remove(to).contains_key(api) == is.remove(to).contains_key(api));
            assert(left.remove(to)[api] == left[api]);
            assert(is.remove(to)[api] == is[api]);
        }
    }
}

/// A registration takes nothing away from the other namespaces: what was served
/// as a machine in some state still is.
pub proof fn law_register_keeps_others<S: Machine>(
    before: &Session,
    after: &Session,
    api: u8,
    other: u8,
    state: S,
)
    requires
        registered(before, after, api),
        other != api,
        serves(before, other, state),
    ensures
        serves(after, other, state),
{
    let (was, is) = (before.spec_backends(), after.spec_backends());
    assert(is.remove(api).contains_key(other) == was.remove(api).contains_key(other));
    assert(is.remove(api)[other] == is[other]);
    assert(was.remove(api)[other] == was[other]);
}

/// A run of frames: the session handles each in turn. The sessions are those
/// before the first frame and after each one.
pub open spec fn handled_run(
    sessions: Seq<Session>,
    frames: Seq<Seq<u8>>,
    results: Seq<Result<Vec<u8>, proto::ProtocolError>>,
) -> bool {
    &&& sessions.len() == frames.len() + 1
    &&& results.len() == frames.len()
    &&& forall|i: int| #![trigger frames[i]]
        0 <= i < frames.len() ==> handled(
            &sessions[i],
            &sessions[i + 1],
            frames[i],
            results[i],
        )
}

/// The call that a frame makes to the backend of namespace `api`, if it makes one.
pub open spec fn call_for(session: &Session, frame: Seq<u8>, api: u8) -> Option<Call> {
    match screen(frame, session.spec_max_frame_body()) {
        Ok((h, body)) => if h.opcode != core_op::HELLO && h.opcode != core_op::NOOP
            && proto::spec_opcode_api(h.opcode) == api {
            Some(Call { opcode: h.opcode, req_id: h.req_id, body })
        } else {
            None
        },
        Err(_) => None,
    }
}

/// The calls that a run of frames makes to the backend of namespace `api`.
pub open spec fn calls_for(sessions: Seq<Session>, frames: Seq<Seq<u8>>, api: u8) -> Seq<Call>
    decreases frames.len(),
{
    if frames.len() == 0 {
        seq![]
    } else {
        let before = calls_for(sessions, frames.drop_last(), api);
        match call_for(&sessions[frames.len() - 1], frames.last(), api) {
            Some(call) => before.push(call),
            None => before,
        }
    }
}

/// Over a run of frames a backend is handed the frames of its own namespace, all
/// of them and in their order, and nothing else: what it answers afterwards is
/// what it would have answered after those calls.
pub proof fn law_run_of_frames(
    sessions: Seq<Session>,
    frames: Seq<Seq<u8>>,
    results: Seq<Result<Vec<u8>, proto::ProtocolError>>,
    api: u8,
)
    requires
        handled_run(sessions, frames, results),
        sessions[0].spec_backends().contains_key(api),
    ensures
        sessions.last().spec_backends().contains_key(api),
        forall|past: Seq<Call>, c: Call| #[trigger]
            sessions.last().spec_backends()[api].answer(past, c)
                == sessions[0].spec_backends()[api].answer(
                calls_for(sessions, frames, api) + past,
                c,
            ),
    decreases frames.len(),
{
    if frames.len() == 0 {
        assert forall|past: Seq<Call>, c: Call| #[trigger]
            sessions.last().spec_backends()[api].answer(past, c)
                == sessions[0].spec_backends()[api].answer(
                calls_for(sessions, frames, api) + past,
                c,
            ) by {
            assert(calls_for(sessions, frames, api) + past =~= past);
        }
    } else {
        let n = frames.len() - 1;
        let front = frames.drop_last();
        let earlier = sessions.drop_last();
        assert forall|i: int| #![trigger front[i]] 0 <= i < front.len() implies handled(
            &earlier[i],
            &earlier[i + 1],
            front[i],
            results.drop_last()[i],
        ) by {
            assert(frames[i] == front[i]);
        }
        law_run_of_frames(earlier, front, results.drop_last(), api);
        lemma_calls_for_front(sessions, front, api);
        assert(frames[n] == frames.last());
        let (was, is) = (sessions[n].spec_backends(), sessions[n + 1].spec_backends());
        let calls = calls_for(sessions, front, api);
        match call_for(&sessions[n], frames.last(), api) {
            Some(call) => {
                assert forall|past: Seq<Call>, c: Call| #[trigger]
                    is[api].answer(past, c) == sessions[0].spec_backends()[api].answer(
                        calls_for(sessions, frames, api) + past,
                        c,
                    ) by {
                    assert(was[api].answer(seq![call] + past, c)
                        == sessions[0].spec_backends()[api].answer(
                        calls + (seq![call] + past),
                        c,
                    ));
                    assert(calls + (seq![call] + past) =~= calls.push(call) + past);
                }
            },
            None => {
                if let Ok((h, body)) = screen(frames.last(), sessions[n].spec_max_frame_body()) {
                    let other = proto::spec_opcode_api(h.opcode);
                    if is != was {
                        assert(is.remove(other).contains_key(api) == was.remove(other).contains_key(
                            api,
                        ));
                        assert(is.remove(other)[api] == is[api]);
                        assert(was.remove(other)[api] == was[api]);
                    }
                }
                assert(is[api] == was[api]);
            },
        }
    }
}

/// The calls of a run do not depend on the sessions after it.
proof fn lemma_calls_for_front(sessions: Seq<Session>, frames: Seq<Seq<u8>>, api: u8)
    requires
        frames.len() < sessions.len(),
    ensures
        calls_for(sessions.drop_last(), frames, api) == calls_for(sessions, frames, api),
    decreases frames.len(),
{
    if frames.len() > 0 {
        lemma_calls_for_front(sessions, frames.drop_last(), api);
    }
}

/// The negotiated limit is never above the default nor above what was offered.
pub proof fn law_negotiated_limit(offered: u32)
    ensures
        negotiated(offered) <= proto::DEFAULT_MAX_FRAME_BODY,
        negotiated(offered) <= offered,
        negotiated(offered) == offered || negotiated(offered) == proto::DEFAULT_MAX_FRAME_BODY,
{
}

/// The replies of a session are reply frames numbered in the order they are
/// given: each carries the session's next `seq`, and the one after it is higher.
pub proof fn law_replies_numbered(
    before: &Session,
    after: &Session,
    frame: Seq<u8>,
    r: Result<Vec<u8>, proto::ProtocolError>,
) -> (parts: (u32, u32, Seq<u8>))
    requires
        handled(before, after, frame, r),
        r is Ok,
    ensures
        r->Ok_0@ == proto::frame::reply_bytes(
            parts.0,
            parts.1,
            before.spec_next_seq(),
            parts.2,
        ),
        after.spec_next_seq() > before.spec_next_seq(),
{
    let (h, body) = screen(frame, before.spec_max_frame_body())->Ok_0;
    let api = proto::spec_opcode_api(h.opcode);
    let call = Call { opcode: h.opcode, req_id: h.req_id, body };
    if h.opcode == core_op::HELLO {
        let hello = proto::Hello::parse(body)->Ok_0;
        (
            core_op::WELCOME,
            h.req_id,
            welcome(before.spec_session_id(), negotiated(hello.max_frame_body)).bytes(),
        )
    } else if h.opcode == core_op::NOOP {
        (core_op::NOOP, h.req_id, seq![])
    } else {
        (h.opcode, h.req_id, before.spec_backends()[api].answer(seq![], call)->Ok_0)
    }
}

/// A frame as a session takes it: the body that it declares is there and fits the
/// limit.
pub open spec fn well_framed(session: &Session, h: proto::FrameHeader, body: Seq<u8>) -> bool {
    h.body_len == body.len() && h.body_len <= session.spec_max_frame_body()
}

/// A `HELLO` of this protocol version is always accepted. The limit is from then
/// on the smaller of what the client offers and the server's 1 MiB, and that is
/// what the `WELCOME` tells the client, together with the protocol version, no
/// features, and the session's id. The reply is a response under the request id
/// of the `HELLO`, and the handshake has completed.
pub proof fn law_hello_negotiates(
    before: &Session,
    after: &Session,
    h: proto::FrameHeader,
    hello: proto::Hello,
    rest: Seq<u8>,
    r: Result<Vec<u8>, proto::ProtocolError>,
)
    requires
        handled(before, after, proto::frame::frame_bytes(h, hello.bytes() + rest), r),
        h.opcode == core_op::HELLO,
        well_framed(before, h, hello.bytes() + rest),
        hello.proto_major == proto::PROTOCOL_MAJOR,
    ensures
        after.spec_handshook(),
        after.spec_max_frame_body() <= hello.max_frame_body,
        after.spec_max_frame_body() <= 1024 * 1024,
        after.spec_max_frame_body() == hello.max_frame_body || after.spec_max_frame_body() == 1024
            * 1024,
        after.spec_session_id() == before.spec_session_id(),
        after.spec_backends() == before.spec_backends(),
        r matches Ok(reply) && proto::frame::parse_frame(reply@) matches Ok((w, body)) && {
            &&& w.kind == proto::FrameKind::Response
            &&& w.opcode == core_op::WELCOME
            &&& w.req_id == h.req_id
            &&& w.seq == before.spec_next_seq()
            &&& w.body_len == body.len()
            &&& proto::Welcome::parse(body) == Ok::<proto::Welcome, proto::ProtocolError>(
                proto::Welcome {
                    proto_major: proto::PROTOCOL_MAJOR,
                    proto_minor: proto::PROTOCOL_MINOR,
                    features: 0,
                    max_frame_body: after.spec_max_frame_body(),
                    session_id: before.spec_session_id(),
                },
            )
        },
{
    broadcast use bytes::group_le_len;

    let body = hello.bytes() + rest;
    proto::frame::law_frame_round_trip(h, body);
    hello.law_round_trip(rest);
    law_reply_framed(before, after, h, body, r);
    let granted = welcome(before.spec_session_id(), after.spec_max_frame_body());
    granted.law_whole();
    proto::frame::law_frame_round_trip(
        proto::frame::plain_header(
            proto::FrameKind::Response,
            core_op::WELCOME,
            h.req_id,
            before.spec_next_seq(),
            20,
        ),
        granted.bytes(),
    );
}

/// A session never takes larger bodies than the server's 1 MiB, whatever a client
/// offers, and its limit and the handshake are changed by an accepted `HELLO`
/// alone.
pub proof fn law_limit_is_kept(
    before: &Session,
    after: &Session,
    frame: Seq<u8>,
    r: Result<Vec<u8>, proto::ProtocolError>,
)
    requires
        handled(before, after, frame, r),
    ensures
        before.spec_max_frame_body() <= 1024 * 1024 ==> after.spec_max_frame_body() <= 1024 * 1024,
        r is Err ==> after.spec_max_frame_body() == before.spec_max_frame_body(),
        r is Err ==> after.spec_handshook() == before.spec_handshook(),
        before.spec_handshook() ==> after.spec_handshook(),
        proto::frame::parse_frame(frame) matches Ok((h, _)) && h.opcode != core_op::HELLO ==> {
            &&& after.spec_max_frame_body() == before.spec_max_frame_body()
            &&& after.spec_handshook() == before.spec_handshook()
        },
{
}

/// A `HELLO` of another major version is refused with the version it offers, and
/// one that is cut short as an unexpected end; neither changes anything.
pub proof fn law_hello_refused(
    before: &Session,
    after: &Session,
    h: proto::FrameHeader,
    hello: proto::Hello,
    body: Seq<u8>,
    r: Result<Vec<u8>, proto::ProtocolError>,
)
    requires
        handled(before, after, proto::frame::frame_bytes(h, body), r),
        h.opcode == core_op::HELLO,
        well_framed(before, h, body),
        body.len() < 12 || (hello.proto_major != proto::PROTOCOL_MAJOR && exists|rest: Seq<u8>|
            body == #[trigger] (hello.bytes() + rest)),
    ensures
        *after == *before,
        body.len() < 12 ==> r == Err::<Vec<u8>, proto::ProtocolError>(
            proto::ProtocolError::UnexpectedEof,
        ),
        body.len() >= 12 ==> r == Err::<Vec<u8>, proto::ProtocolError>(
            proto::ProtocolError::BadVersion { major: hello.proto_major, minor: hello.proto_minor },
        ),
{
    proto::frame::law_frame_round_trip(h, body);
    if body.len() >= 12 {
        let rest = choose|rest: Seq<u8>| body == #[trigger] (hello.bytes() + rest);
        hello.law_round_trip(rest);
    }
}

/// A `NOOP` is always answered, with an empty body under the same request id, and
/// changes nothing but the sequence number.
pub proof fn law_noop_answered(
    before: &Session,
    after: &Session,
    h: proto::FrameHeader,
    body: Seq<u8>,
    r: Result<Vec<u8>, proto::ProtocolError>,
)
    requires
        handled(before, after, proto::frame::frame_bytes(h, body), r),
        h.opcode == core_op::NOOP,
        well_framed(before, h, body),
    ensures
        r matches Ok(reply) && proto::frame::parse_frame(reply@) matches Ok((n, empty)) && {
            &&& n.kind == proto::FrameKind::Response
            &&& n.opcode == core_op::NOOP
            &&& n.req_id == h.req_id
            &&& n.seq == before.spec_next_seq()
            &&& n.body_len == 0
            &&& empty.len() == 0
        },
        after.spec_next_seq() == before.spec_next_seq() + 1,
        after.spec_session_id() == before.spec_session_id(),
        after.spec_max_frame_body() == before.spec_max_frame_body(),
        after.spec_handshook() == before.spec_handshook(),
        after.spec_backends() == before.spec_backends(),
{
    proto::frame::law_frame_round_trip(h, body);
    proto::frame::law_frame_round_trip(
        proto::frame::plain_header(
            proto::FrameKind::Response,
            core_op::NOOP,
            h.req_id,
            before.spec_next_seq(),
            0,
        ),
        seq![],
    );
}

/// Nothing in a frame is acted on before it has been checked. What is shorter than
/// a header is refused as an unexpected end, what carries no known kind as such, a
/// frame that declares more than the limit as too large, and one whose declared
/// length is not its length as a mismatch, in this order; each leaves the session
/// as it was.
pub proof fn law_bad_frame_refused(
    before: &Session,
    after: &Session,
    frame: Seq<u8>,
    h: proto::FrameHeader,
    body: Seq<u8>,
    r: Result<Vec<u8>, proto::ProtocolError>,
)
    requires
        handled(before, after, frame, r),
    ensures
        frame.len() < 28 ==> *after == *before && r == Err::<Vec<u8>, proto::ProtocolError>(
            proto::ProtocolError::UnexpectedEof,
        ),
        frame.len() >= 28 && bytes::u16_at(frame, 4) > 2 ==> *after == *before && r == Err::<
            Vec<u8>,
            proto::ProtocolError,
        >(proto::ProtocolError::BadKind(bytes::u16_at(frame, 4))),
        frame == proto::frame::frame_bytes(h, body) && h.body_len > before.spec_max_frame_body()
            ==> *after == *before && r == Err::<Vec<u8>, proto::ProtocolError>(
            proto::ProtocolError::FrameTooLarge(h.body_len),
        ),
        frame == proto::frame::frame_bytes(h, body) && h.body_len <= before.spec_max_frame_body()
            && h.body_len != body.len() ==> *after == *before && r == Err::<
            Vec<u8>,
            proto::ProtocolError,
        >(
            proto::ProtocolError::BodyLenMismatch {
                declared: h.body_len,
                actual: body.len() as usize,
            },
        ),
{
    proto::frame::law_frame_round_trip(h, body);
}

/// A call for a namespace without a backend is refused by its opcode, and changes
/// nothing.
pub proof fn law_unserved_call_refused(
    before: &Session,
    after: &Session,
    h: proto::FrameHeader,
    body: Seq<u8>,
    r: Result<Vec<u8>, proto::ProtocolError>,
)
    requires
        handled(before, after, proto::frame::frame_bytes(h, body), r),
        well_framed(before, h, body),
        h.opcode != core_op::HELLO,
        h.opcode != core_op::NOOP,
        !before.spec_backends().contains_key((h.opcode / 0x100_0000) as u8),
    ensures
        r == Err::<Vec<u8>, proto::ProtocolError>(proto::ProtocolError::UnknownOpcode(h.opcode)),
        after.spec_backends() == before.spec_backends(),
        after.spec_next_seq() == before.spec_next_seq(),
        after.spec_max_frame_body() == before.spec_max_frame_body(),
        after.spec_handshook() == before.spec_handshook(),
{
    proto::frame::law_frame_round_trip(h, body);
}

/// A call for a namespace with a backend is answered by that backend, whether or
/// not the handshake has been made: the reply carries the backend's answer as its
/// body, under the opcode and the request id of the call, and what the backend
/// refuses is refused with its error. The backend has then taken the call and the
/// others have not.
pub proof fn law_served_call_answered(
    before: &Session,
    after: &Session,
    h: proto::FrameHeader,
    body: Seq<u8>,
    r: Result<Vec<u8>, proto::ProtocolError>,
)
    requires
        handled(before, after, proto::frame::frame_bytes(h, body), r),
        well_framed(before, h, body),
        h.opcode != core_op::HELLO,
        h.opcode != core_op::NOOP,
        before.spec_backends().contains_key((h.opcode / 0x100_0000) as u8),
    ensures
        ({
            let api = (h.opcode / 0x100_0000) as u8;
            let call = Call { opcode: h.opcode, req_id: h.req_id, body };
            &&& match before.spec_backends()[api].answer(seq![], call) {
                Ok(resp) => r matches Ok(reply) && proto::frame::parse_frame(reply@) matches Ok(
                    (a, answer),
                ) && {
                    &&& answer == resp
                    &&& a.kind == proto::FrameKind::Response
                    &&& a.opcode == h.opcode
                    &&& a.req_id == h.req_id
                    &&& a.seq == before.spec_next_seq()
                    &&& resp.len() <= u32::MAX ==> a.body_len == resp.len()
                },
                Err(e) => r == Err::<Vec<u8>, proto::ProtocolError>(e),
            }
            &&& after.spec_backends().contains_key(api)
            &&& forall|past: Seq<Call>, c: Call| #[trigger]
                after.spec_backends()[api].answer(past, c) == before.spec_backends()[api].answer(
                    seq![call] + past,
                    c,
                )
            &&& after.spec_backends().remove(api) == before.spec_backends().remove(api)
            &&& after.spec_max_frame_body() == before.spec_max_frame_body()
            &&& after.spec_handshook() == before.spec_handshook()
            &&& after.spec_session_id() == before.spec_session_id()
        }),
{
    let api = (h.opcode / 0x100_0000) as u8;
    let call = Call { opcode: h.opcode, req_id: h.req_id, body };
    proto::frame::law_frame_round_trip(h, body);
    if let Ok(resp) = before.spec_backends()[api].answer(seq![], call) {
        proto::frame::law_frame_round_trip(
            proto::frame::plain_header(
                proto::FrameKind::Response,
                h.opcode,
                h.req_id,
                before.spec_next_seq(),
                bytes::low_u32(resp.len()),
            ),
            resp,
        );
    }
}

/// Every reply is a response frame of this protocol version without flags that
/// answers the frame it was given for: it carries its request id, the number that
/// is due, and its opcode, or that of `WELCOME` for a `HELLO`.
pub proof fn law_reply_framed(
    before: &Session,
    after: &Session,
    h: proto::FrameHeader,
    body: Seq<u8>,
    r: Result<Vec<u8>, proto::ProtocolError>,
)
    requires
        handled(before, after, proto::frame::frame_bytes(h, body), r),
        r is Ok,
    ensures
        proto::frame::parse_frame(r->Ok_0@) matches Ok((a, answer)) && {
            &&& a.version == proto::PROTOCOL_MAJOR
            &&& a.flags == 0
            &&& a.kind == proto::FrameKind::Response
            &&& a.opcode == if h.opcode == core_op::HELLO {
                core_op::WELCOME
            } else {
                h.opcode
            }
            &&& a.req_id == h.req_id
            &&& a.seq == before.spec_next_seq()
            &&& answer.len() <= u32::MAX ==> a.body_len == answer.len()
        },
        after.spec_next_seq() == before.spec_next_seq() + 1,
{
    lemma_reply_parts(before, after, h, body, r);
}

/// The header of a reply.
proof fn lemma_reply_parts(
    before: &Session,
    after: &Session,
    h: proto::FrameHeader,
    body: Seq<u8>,
    r: Result<Vec<u8>, proto::ProtocolError>,
)
    requires
        handled(before, after, proto::frame::frame_bytes(h, body), r),
        r is Ok,
    ensures
        proto::frame::parse_frame(r->Ok_0@) matches Ok((a, answer)) && {
            &&& a == proto::frame::plain_header(
                proto::FrameKind::Response,
                if h.opcode == core_op::HELLO {
                    core_op::WELCOME
                } else {
                    h.opcode
                },
                h.req_id,
                before.spec_next_seq(),
                bytes::low_u32(answer.len()),
            )
        },
{
    proto::frame::law_frame_round_trip(h, body);
    let api = proto::spec_opcode_api(h.opcode);
    let call = Call { opcode: h.opcode, req_id: h.req_id, body };
    let (opcode, answer) = if h.opcode == core_op::HELLO {
        let granted = welcome(before.spec_session_id(), after.spec_max_frame_body());
        (core_op::WELCOME, granted.bytes())
    } else if h.opcode == core_op::NOOP {
        (core_op::NOOP, seq![])
    } else {
        (h.opcode, before.spec_backends()[api].answer(seq![], call)->Ok_0)
    };
    proto::frame::law_frame_round_trip(
        proto::frame::plain_header(
            proto::FrameKind::Response,
            opcode,
            h.req_id,
            before.spec_next_seq(),
            bytes::low_u32(answer.len()),
        ),
        answer,
    );
}

/// Of a header only the opcode, the request id and the declared length play a
/// part: frames that differ in version, flags, kind or sequence number alone are
/// answered alike and leave the session alike.
pub proof fn law_rest_of_header_plays_no_part(
    before: &Session,
    after1: &Session,
    after2: &Session,
    h1: proto::FrameHeader,
    h2: proto::FrameHeader,
    body: Seq<u8>,
    r1: Result<Vec<u8>, proto::ProtocolError>,
    r2: Result<Vec<u8>, proto::ProtocolError>,
)
    requires
        handled(before, after1, proto::frame::frame_bytes(h1, body), r1),
        handled(before, after2, proto::frame::frame_bytes(h2, body), r2),
        h1.opcode == h2.opcode,
        h1.req_id == h2.req_id,
        h1.body_len == h2.body_len,
    ensures
        super::backend::answer_of(r1) == super::backend::answer_of(r2),
        after1.spec_next_seq() == after2.spec_next_seq(),
        after1.spec_max_frame_body() == after2.spec_max_frame_body(),
        after1.spec_handshook() == after2.spec_handshook(),
        forall|api: u8| #[trigger]
            before.spec_backends().contains_key(api) ==> forall|past: Seq<Call>, c: Call| #[trigger]
                after1.spec_backends()[api].answer(past, c) == after2.spec_backends()[api].answer(
                    past,
                    c,
                ),
{
    proto::frame::law_frame_round_trip(h1, body);
    proto::frame::law_frame_round_trip(h2, body);
    let api = proto::spec_opcode_api(h1.opcode);
    let (was, is1, is2) = (
        before.spec_backends(),
        after1.spec_backends(),
        after2.spec_backends(),
    );
    assert forall|k: u8| #[trigger] was.contains_key(k) implies forall|past: Seq<Call>, c: Call|
        #[trigger] is1[k].answer(past, c) == is2[k].answer(past, c) by {
        if k != api {
            assert(was.remove(api)[k] == was[k]);
            assert(is1.remove(api)[k] == is1[k]);
            assert(is2.remove(api)[k] == is2[k]);
            if is1 != was {
                assert(is1[k] == was[k]);
            }
            if is2 != was {
                assert(is2[k] == was[k]);
            }
        }
    }
}

/// A new session has the id it was given, takes bodies of up to 1 MiB, has not
/// shaken hands, numbers its replies from 1, and serves no namespace.
pub proof fn law_new_session(session_id: u64, s: Session, api: u8)
    requires
        call_ensures(Session::new, (session_id,), s),
    ensures
        s.spec_session_id() == session_id,
        s.spec_max_frame_body() == 1024 * 1024,
        !s.spec_handshook(),
        s.spec_next_seq() == 1,
        !s.spec_backends().contains_key(api),
        s.inv(),
{
}

/// Whether a session has shaken hands, and whether it has a number left for another
/// reply, can be read off it.
pub proof fn law_session_reads(session: &Session, shaken: bool, ready: bool)
    requires
        call_ensures(Session::is_handshook, (session,), shaken),
        call_ensures(Session::can_reply, (session,), ready),
    ensures
        shaken <==> session.spec_handshook(),
        ready <==> session.spec_next_seq() < u64::MAX,
{
}

/// Handling a `HELLO` of this protocol version grants the smaller of the client's
/// offer and 1 MiB, and tells the client so; handling a `NOOP` answers it and
/// leaves the limit alone.
pub proof fn law_handle_grants(
    session: &mut Session,
    frame: &[u8],
    r: Result<Vec<u8>, proto::ProtocolError>,
    h: proto::FrameHeader,
    hello: proto::Hello,
    rest: Seq<u8>,
)
    requires
        call_ensures(Session::handle, (session, frame), r),
        well_framed(old(session), h, hello.bytes() + rest),
        frame@ == proto::frame::frame_bytes(h, hello.bytes() + rest),
    ensures
        h.opcode == core_op::HELLO && hello.proto_major == proto::PROTOCOL_MAJOR ==> {
            &&& final(session).spec_handshook()
            &&& final(session).spec_max_frame_body() <= hello.max_frame_body
            &&& final(session).spec_max_frame_body() <= 1024 * 1024
            &&& final(session).spec_max_frame_body() == 1024 * 1024
                || final(session).spec_max_frame_body() == hello.max_frame_body
            &&& r matches Ok(reply)
            &&& proto::frame::parse_frame(reply@) matches Ok((w, body))
            &&& w.opcode == core_op::WELCOME
            &&& w.req_id == h.req_id
            &&& proto::Welcome::parse(body) matches Ok(granted)
            &&& granted.max_frame_body == final(session).spec_max_frame_body()
            &&& granted.session_id == old(session).spec_session_id()
        },
        h.opcode == core_op::NOOP ==> {
            &&& r is Ok
            &&& final(session).spec_max_frame_body() == old(session).spec_max_frame_body()
            &&& final(session).spec_handshook() == old(session).spec_handshook()
            &&& final(session).spec_next_seq() == old(session).spec_next_seq() + 1
        },
{
    if h.opcode == core_op::HELLO && hello.proto_major == proto::PROTOCOL_MAJOR {
        law_hello_negotiates(&*old(session), &*final(session), h, hello, rest, r);
    } else if h.opcode == core_op::NOOP {
        law_noop_answered(&*old(session), &*final(session), h, hello.bytes() + rest, r);
    }
}

} // verus!
