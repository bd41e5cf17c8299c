//! Decisions of the serve loop.
//!
//! A serve loop drives a [`Session`] over a transport: receive a frame, hand it
//! to the session, send back the reply. A clean peer close ends the loop without
//! error; any other transport failure ends it with that failure. What the loop
//! does with each outcome of a receive is decided here; whoever owns the
//! transport carries it out.
use vstd::prelude::*;

use super::Session;
use crate::obs::registry;
use crate::obs::{CallStats, ObsRegistry};
use crate::protocol as proto;

verus! {

/// The name of an API namespace byte.
pub open spec fn api_name_of(api: u8) -> Seq<char> {
    if api == 0x00 {
        "core"@
    } else if api == 0x01 {
        "vulkan"@
    } else if api == 0x02 {
        "opengl"@
    } else if api == 0x03 {
        "cuda"@
    } else if api == 0x04 {
        "opencl"@
    } else if api == 0x05 {
        "hip"@
    } else if api == 0x06 {
        "level_zero"@
    } else if api == 0x07 {
        "video"@
    } else if api == 0x08 {
        "webgpu"@
    } else if api == 0x09 {
        "optix"@
    } else if api == 0x0A {
        "sycl"@
    } else if api == 0x0B {
        "amf"@
    } else {
        "unknown"@
    }
}

/// Map an API-namespace byte (the high byte of an opcode, as returned by
/// [`proto::opcode_api`]) to a stable, human-readable name.
///
/// The returned `&'static str` is used as the registry key of served calls, so
/// it is intentionally a fixed identifier per API rather than a per-call label.
/// Any byte outside the known [`proto::ApiId`] range maps to `"unknown"`.
pub fn api_name(api: u8) -> (name: &'static str)
    ensures
        name@ == api_name_of(api),
{
    match api {
        0x00 => "core",
        0x01 => "vulkan",
        0x02 => "opengl",
        0x03 => "cuda",
        0x04 => "opencl",
        0x05 => "hip",
        0x06 => "level_zero",
        0x07 => "video",
        0x08 => "webgpu",
        0x09 => "optix",
        0x0A => "sycl",
        0x0B => "amf",
        _ => "unknown",
    }
}

/// What came of a receive.
#[derive(Debug, PartialEq, Eq)]
pub enum Received {
    /// A frame arrived.
    Frame(Vec<u8>),
    /// The peer closed the connection (end of stream or broken pipe).
    PeerClosed,
    /// The transport failed in another way.
    Failed,
}

/// What the serve loop does next.
#[derive(Debug, PartialEq, Eq)]
pub enum ServeStep {
    /// Send this reply to the frame that was handled, and go on.
    Reply {
        /// The frame that was handled.
        frame: Vec<u8>,
        /// The reply to send.
        reply: Vec<u8>,
    },
    /// End without error.
    Finish,
    /// End with the failure of the transport.
    Fail,
}

/// What a round of the serve loop makes of a session and decides.
pub open spec fn stepped(
    before: &Session,
    after: &Session,
    received: Received,
    step: ServeStep,
) -> bool {
    match received {
        Received::PeerClosed => step is Finish && *after == *before,
        Received::Failed => step is Fail && *after == *before,
        Received::Frame(frame) => exists|r: Result<Vec<u8>, proto::ProtocolError>|
            {
                &&& #[trigger] super::session::handled(before, after, frame@, r)
                &&& match r {
                    Ok(reply) => step == (ServeStep::Reply { frame, reply }),
                    Err(_) => step is Finish,
                }
            },
    }
}

/// Decide one round of the serve loop.
///
/// A frame is dispatched to [`Session::handle`]; on success its reply is to be
/// sent back. If the session reports a
/// [`ProtocolError`](proto::ProtocolError) the loop ends cleanly. A clean peer
/// close ends it cleanly too; any other failure is passed on.
pub fn serve_step(session: &mut Session, received: Received) -> (step: ServeStep)
    requires
        old(session).inv(),
        received is Frame ==> old(session).spec_next_seq() < u64::MAX,
    ensures
        final(session).inv(),
        final(session).spec_session_id() == old(session).spec_session_id(),
        stepped(old(session), final(session), received, step),
{
    match received {
        Received::PeerClosed => ServeStep::Finish,
        Received::Failed => ServeStep::Fail,
        Received::Frame(frame) => {
            let r = session.handle(frame.as_slice());
            match r {
                Ok(reply) => ServeStep::Reply { frame, reply },
                Err(_) => ServeStep::Finish,
            }
        },
    }
}

/// The name under which a frame is counted, if it has a header.
pub open spec fn frame_api_of(frame: Seq<u8>) -> Option<Seq<char>> {
    match proto::frame::parse_frame(frame) {
        Ok((h, _)) => Some(api_name_of(proto::spec_opcode_api(h.opcode))),
        Err(_) => None,
    }
}

/// The name under which a frame is counted. A malformed header has no usable
/// opcode, so such a frame has none.
pub fn frame_api(frame: &[u8]) -> (api: Option<&'static str>)
    ensures
        match api {
            Some(name) => frame_api_of(frame@) == Some(name@),
            None => frame_api_of(frame@) is None,
        },
{
    match proto::decode_frame(frame) {
        Ok((h, _)) => Some(api_name(proto::opcode_api(h.opcode))),
        Err(_) => None,
    }
}

/// What recording a served call makes of a registry: one more call under the name
/// of the frame, with the length of the frame going out and that of the reply
/// coming in. A frame without a name is not recorded.
pub open spec fn recorded(
    before: &ObsRegistry,
    after: &ObsRegistry,
    frame: Seq<u8>,
    reply: Seq<u8>,
) -> bool {
    match frame_api_of(frame) {
        Some(name) => {
            &&& after@ == registry::with_call(
                before@,
                name,
                frame.len() as u64,
                reply.len() as u64,
            )
            &&& registry::total_of(after.spec_rows()) == registry::total_of(
                before.spec_rows(),
            ).recorded(frame.len() as u64, reply.len() as u64)
        },
        None => *after == *before,
    }
}

/// Record one served call: a handled frame whose reply has been sent.
///
/// The call is keyed by the API name of the request's opcode. The recorded
/// `bytes_out` is the inbound request frame length and `bytes_in` is the reply
/// frame length, matching the [`ObsRegistry`] convention where "out"/"in" are
/// relative to the forwarded call rather than the socket.
pub fn record_served(registry: &mut ObsRegistry, frame: &[u8], reply: &[u8])
    requires
        old(registry).inv(),
    ensures
        final(registry).inv(),
        recorded(old(registry), final(registry), frame@, reply@),
{
    if let Some(api) = frame_api(frame) {
        registry.record(api, frame.len() as u64, reply.len() as u64);
    }
}

/// A run of the serve loop: the session answers each frame in turn, and each call
/// is recorded. The sessions and registries are those before the first frame and
/// after each one.
pub open spec fn served_run(
    sessions: Seq<Session>,
    registries: Seq<ObsRegistry>,
    frames: Seq<Vec<u8>>,
    replies: Seq<Vec<u8>>,
) -> bool {
    &&& sessions.len() == frames.len() + 1
    &&& registries.len() == frames.len() + 1
    &&& replies.len() == frames.len()
    &&& forall|i: int| #![trigger frames[i]]
        0 <= i < frames.len() ==> {
            &&& super::session::handled(
                &sessions[i],
                &sessions[i + 1],
                frames[i]@,
                Ok::<Vec<u8>, proto::ProtocolError>(replies[i]),
            )
            &&& recorded(&registries[i], &registries[i + 1], frames[i]@, replies[i]@)
        }
}

/// The statistics after calls have been recorded one after the other, each under
/// the name of its opcode's namespace.
pub open spec fn served_stats(
    before: Map<Seq<char>, CallStats>,
    frames: Seq<Vec<u8>>,
    replies: Seq<Vec<u8>>,
) -> Map<Seq<char>, CallStats>
    decreases frames.len(),
{
    if frames.len() == 0 {
        before
    } else {
        let frame = frames.last()@;
        registry::with_call(
            served_stats(before, frames.drop_last(), replies.drop_last()),
            api_name_of(
                proto::spec_opcode_api(proto::frame::parse_frame(frame)->Ok_0.0.opcode),
            ),
            frame.len() as u64,
            replies.last()@.len() as u64,
        )
    }
}

/// A run of the serve loop records every answered frame once, under the name of
/// its opcode's namespace and with the lengths of the frame and its reply, and
/// nothing more.
pub proof fn law_served_run_recorded(
    sessions: Seq<Session>,
    registries: Seq<ObsRegistry>,
    frames: Seq<Vec<u8>>,
    replies: Seq<Vec<u8>>,
)
    requires
        served_run(sessions, registries, frames, replies),
    ensures
        registries.last()@ == served_stats(registries[0]@, frames, replies),
    decreases frames.len(),
{
    if frames.len() > 0 {
        let n = frames.len() - 1;
        let front = frames.drop_last();
        assert forall|i: int| #![trigger front[i]] 0 <= i < front.len() implies {
            &&& super::session::handled(
                &sessions.drop_last()[i],
                &sessions.drop_last()[i + 1],
                front[i]@,
                Ok::<Vec<u8>, proto::ProtocolError>(replies.drop_last()[i]),
            )
            &&& recorded(
                &registries.drop_last()[i],
                &registries.drop_last()[i + 1],
                front[i]@,
                replies.drop_last()[i]@,
            )
        } by {
            assert(frames[i] == front[i]);
        }
        law_served_run_recorded(
            sessions.drop_last(),
            registries.drop_last(),
            front,
            replies.drop_last(),
        );
        assert(frames[n] == frames.last());
    }
}

/// Every frame that a session answers has a name to be recorded under.
pub proof fn law_answered_frame_has_name(
    before: &Session,
    after: &Session,
    frame: Seq<u8>,
    r: Result<Vec<u8>, proto::ProtocolError>,
)
    requires
        super::session::handled(before, after, frame, r),
    ensures
        r is Ok ==> frame_api_of(frame) is Some,
{
}

/// Each API has a name of its own, and a byte outside of them has none: the name
/// that a namespace byte is counted under is that of the API whose byte it is.
pub proof fn law_api_names(api: proto::ApiId, other: u8)
    ensures
        api_name_of(api.byte()) == (match api {
            proto::ApiId::Core => "core"@,
            proto::ApiId::Vulkan => "vulkan"@,
            proto::ApiId::OpenGl => "opengl"@,
            proto::ApiId::Cuda => "cuda"@,
            proto::ApiId::OpenCl => "opencl"@,
            proto::ApiId::Hip => "hip"@,
            proto::ApiId::LevelZero => "level_zero"@,
            proto::ApiId::Video => "video"@,
            proto::ApiId::WebGpu => "webgpu"@,
            proto::ApiId::OptiX => "optix"@,
            proto::ApiId::Sycl => "sycl"@,
            proto::ApiId::Amf => "amf"@,
        }),
        other > 0x0B ==> api_name_of(other) == "unknown"@,
{
}

/// Different namespaces are counted under different names, and none of them under
/// the name of the unknown ones: two bytes share a name only if they are the same
/// byte, or both belong to no API.
pub proof fn law_api_names_differ(a: u8, b: u8)
    requires
        a != b,
        a <= 0x0B || b <= 0x0B,
    ensures
        api_name_of(a) != api_name_of(b),
{
    reveal_strlit("core");
    reveal_strlit("vulkan");
    reveal_strlit("opengl");
    reveal_strlit("cuda");
    reveal_strlit("opencl");
    reveal_strlit("hip");
    reveal_strlit("level_zero");
    reveal_strlit("video");
    reveal_strlit("webgpu");
    reveal_strlit("optix");
    reveal_strlit("sycl");
    reveal_strlit("amf");
    reveal_strlit("unknown");
    let (x, y) = (api_name_of(a), api_name_of(b));
    assert(x.len() == y.len() ==> x[0] != y[0] || x[1] != y[1] || x[2] != y[2] || x[3] != y[3]
        || x[4] != y[4]);
}

/// A served call is counted once, under the name of its namespace, with the bytes
/// of its frame (a header of 28 and the body) going out and those of the reply
/// coming in, each count staying at its maximum. Every other name keeps its
/// counts: in particular, those of every other namespace do.
pub proof fn law_served_call_counted(
    before: &ObsRegistry,
    after: &ObsRegistry,
    header: proto::FrameHeader,
    body: Seq<u8>,
    reply: Seq<u8>,
    other: Seq<char>,
)
    requires
        recorded(before, after, proto::frame::frame_bytes(header, body), reply),
        28 + body.len() <= u64::MAX,
        reply.len() <= u64::MAX,
    ensures
        ({
            let name = api_name_of((header.opcode / 0x100_0000) as u8);
            let was = registry::stats_of(before@, name);
            &&& after@.contains_key(name)
            &&& after@[name].calls == if was.calls < u64::MAX {
                was.calls + 1
            } else {
                u64::MAX as int
            }
            &&& after@[name].bytes_out == if was.bytes_out + 28 + body.len() <= u64::MAX {
                was.bytes_out + 28 + body.len()
            } else {
                u64::MAX as int
            }
            &&& after@[name].bytes_in == if was.bytes_in + reply.len() <= u64::MAX {
                was.bytes_in + reply.len()
            } else {
                u64::MAX as int
            }
            &&& other != name ==> {
                &&& after@.contains_key(other) == before@.contains_key(other)
                &&& before@.contains_key(other) ==> after@[other] == before@[other]
            }
        }),
{
    broadcast use crate::protocol::bytes::group_le_len;

    proto::frame::law_frame_round_trip(header, body);
}

/// What has no header is counted nowhere.
pub proof fn law_garbled_not_counted(
    before: &ObsRegistry,
    after: &ObsRegistry,
    frame: Seq<u8>,
    reply: Seq<u8>,
)
    requires
        recorded(before, after, frame, reply),
        frame.len() < 28 || proto::bytes::u16_at(frame, 4) > 2,
    ensures
        *after == *before,
{
}

/// Two namespace bytes get the same name only if they are the same byte, or both
/// belong to no API.
pub proof fn law_names_told_apart(a: u8, b: u8, x: &'static str, y: &'static str)
    requires
        call_ensures(api_name, (a,), x),
        call_ensures(api_name, (b,), y),
        a != b,
        a <= 0x0B || b <= 0x0B,
    ensures
        x@ != y@,
{
    law_api_names_differ(a, b);
}

/// A frame is counted under the name of the API in whose namespace its opcode is,
/// whatever its kind and its body; what has no header has no name.
pub proof fn law_frame_named_by_opcode(
    frame: &[u8],
    r: Option<&'static str>,
    api: proto::ApiId,
    header: proto::FrameHeader,
    body: Seq<u8>,
    name: &'static str,
)
    requires
        call_ensures(frame_api, (frame,), r),
        call_ensures(api_name, (api.byte(),), name),
    ensures
        frame@ == proto::frame::frame_bytes(header, body) && header.opcode / 0x100_0000
            == api.byte() ==> (r matches Some(n) && n@ == name@),
        frame@.len() < 28 || proto::bytes::u16_at(frame@, 4) > 2 ==> r is None,
        frame@ == proto::frame::frame_bytes(header, body) ==> r is Some,
{
    proto::frame::law_frame_round_trip(header, body);
}

/// The loop goes on if and only if the session has answered a frame, and then sends
/// the answer to that frame. It ends without error when the peer has closed or the
/// session has refused a frame, and with a failure when the transport has failed,
/// and only then.
pub proof fn law_loop_goes_on_with_replies(
    before: &Session,
    after: &Session,
    received: Received,
    step: ServeStep,
)
    requires
        stepped(before, after, received, step),
    ensures
        step is Fail <==> received is Failed,
        received is PeerClosed ==> step is Finish,
        !(received is Frame) ==> *after == *before,
        step matches ServeStep::Reply { frame, reply } ==> {
            &&& received == Received::Frame(frame)
            &&& super::session::handled(
                before,
                after,
                frame@,
                Ok::<Vec<u8>, proto::ProtocolError>(reply),
            )
        },
        received is Frame && step is Finish ==> exists|e: proto::ProtocolError| #[trigger]
            super::session::handled(
                before,
                after,
                received->Frame_0@,
                Err::<Vec<u8>, proto::ProtocolError>(e),
            ),
{
    if let Received::Frame(frame) = received {
        let r = choose|r: Result<Vec<u8>, proto::ProtocolError>|
            {
                &&& #[trigger] super::session::handled(before, after, frame@, r)
                &&& match r {
                    Ok(reply) => step == (ServeStep::Reply { frame, reply }),
                    Err(_) => step is Finish,
                }
            };
        if let Err(e) = r {
            assert(super::session::handled(
                before,
                after,
                frame@,
                Err::<Vec<u8>, proto::ProtocolError>(e),
            ));
        }
    }
}

/// A no-op keeps the loop going: every well-framed one is replied to, whatever its
/// body, with an empty response under its own request id.
pub proof fn law_noop_is_replied_to(
    before: &Session,
    after: &Session,
    received: Received,
    step: ServeStep,
    h: proto::FrameHeader,
    body: Seq<u8>,
)
    requires
        stepped(before, after, received, step),
        received matches Received::Frame(frame) && frame@ == proto::frame::frame_bytes(h, body),
        h.opcode == proto::core_op::NOOP,
        super::session::well_framed(before, h, body),
    ensures
        step matches ServeStep::Reply { frame: _, reply } && proto::frame::parse_frame(
            reply@,
        ) matches Ok((n, empty)) && n.kind == proto::FrameKind::Response && n.req_id == h.req_id
            && empty.len() == 0,
{
    let r = choose|r: Result<Vec<u8>, proto::ProtocolError>|
        {
            &&& #[trigger] super::session::handled(before, after, received->Frame_0@, r)
            &&& match r {
                Ok(reply) => step == (ServeStep::Reply { frame: received->Frame_0, reply }),
                Err(_) => step is Finish,
            }
        };
    super::session::law_noop_answered(before, after, h, body, r);
}

/// A served call counts once in the total too, with the bytes of its frame and of
/// the reply; a frame without a header leaves the total as it was.
pub proof fn law_served_call_in_total(
    registry: &mut ObsRegistry,
    frame: &[u8],
    reply: &[u8],
    header: proto::FrameHeader,
    body: Seq<u8>,
)
    requires
        call_ensures(record_served, (registry, frame, reply), ()),
        frame@.len() <= u64::MAX,
        reply@.len() <= u64::MAX,
    ensures
        frame@ == proto::frame::frame_bytes(header, body) ==> {
            let was = registry::total_of(old(registry).spec_rows());
            let is = registry::total_of(final(registry).spec_rows());
            &&& is.calls == crate::obs::capped(was.calls + 1)
            &&& is.bytes_out == crate::obs::capped(was.bytes_out + frame@.len())
            &&& is.bytes_in == crate::obs::capped(was.bytes_in + reply@.len())
        },
        proto::frame::parse_frame(frame@) is Err ==> *final(registry) == *old(registry),
{
    proto::frame::law_frame_round_trip(header, body);
}

/// A round of the serve loop ends it cleanly where the peer has closed, and with
/// the failure where the transport has failed; a frame that is answered is replied
/// to with it, and one that is refused ends the loop cleanly.
pub proof fn law_round_decides(
    session: &mut Session,
    received: Received,
    step: ServeStep,
)
    requires
        call_ensures(serve_step, (session, received), step),
    ensures
        received is PeerClosed ==> step is Finish && *final(session) == *old(session),
        received is Failed ==> step is Fail && *final(session) == *old(session),
        step is Fail ==> received is Failed,
        received matches Received::Frame(frame) ==> {
            ||| step is Finish && final(session).spec_next_seq() == old(session).spec_next_seq()
            ||| step matches ServeStep::Reply { frame: same, reply } && {
                &&& same == frame
                &&& final(session).spec_next_seq() == old(session).spec_next_seq() + 1
                &&& super::session::handled(
                    old(session),
                    final(session),
                    frame@,
                    Ok::<Vec<u8>, proto::ProtocolError>(reply),
                )
            }
        },
{
}

} // verus!
