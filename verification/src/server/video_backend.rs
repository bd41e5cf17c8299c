//! Video decode backend dispatch.
//!
//! The [`Session`](crate::server::Session) routes any Video-namespace opcode to this
//! backend. Like the Vulkan, OpenGL, CUDA, HIP, and OpenCL backends, the video
//! backend is a pure-Rust **stub**: it tracks decode-session lifetimes in a
//! generational handle table and a per-session frame counter, but performs no
//! real codec or driver work. No VA-API, VDPAU, NVDEC, or FFI dependency is
//! involved.
use vstd::prelude::*;

use super::backend;
use super::backend::{Answer, Backend, Call, Keeps, Machine};
use crate::handles;
use crate::handles::{HandleTable, TableOp, TableState};
use crate::protocol as proto;
use crate::protocol::video;
use crate::protocol::video_op;
use crate::protocol::wire::Wire;

verus! {

broadcast use crate::protocol::bytes::lemma_append_to_empty;

/// Server object kind for a video decode-session handle.
pub const KIND_VIDEO_SESSION: u8 = 60;

/// Server-side state tracked for one created video decode session.
#[derive(Debug)]
pub struct VideoSessionState {
    /// Codec identifier the session decodes. Recorded for the validation in
    /// the driver bridge.
    pub codec: u32,
    /// Decoded frame width in pixels.
    pub width: u32,
    /// Decoded frame height in pixels.
    pub height: u32,
    /// Number of frames decoded so far; the next `DECODE_FRAME` returns this
    /// value as its `frame_index` and then increments it.
    pub frames: u32,
}

/// Pure-Rust video decode backend stub.
///
/// Owns a generational handle table for the decode sessions it tracks. It
/// answers
/// [`video_op::CREATE_DECODE_SESSION`](proto::video_op::CREATE_DECODE_SESSION)
/// by minting a session handle,
/// [`video_op::DECODE_FRAME`](proto::video_op::DECODE_FRAME) by returning the
/// session's current frame index and advancing the counter, and
/// [`video_op::DESTROY_SESSION`](proto::video_op::DESTROY_SESSION) by removing a
/// known session handle and acknowledging with an empty body. The real codec
/// bridge lands later; every other video call is reported as
/// not-yet-implemented via
/// [`ProtocolError::UnknownOpcode`](proto::ProtocolError::UnknownOpcode).
pub struct VideoBackend {
    /// The decode sessions.
    pub sessions: HandleTable<VideoSessionState>,
}

/// What the video decode backend holds.
pub ghost struct VideoState {
    /// The decode sessions.
    pub sessions: TableState<VideoSessionState>,
}

impl VideoState {
    /// The state without objects.
    pub open spec fn empty() -> Self {
        VideoState { sessions: TableState::empty() }
    }
}

impl Machine for VideoState {
    open spec fn ok(self) -> bool {
        self.sessions.inv()
    }

    open spec fn step(self, call: Call) -> (Self, Answer) {
        let unknown: (Self, Answer) = (self, Err(proto::ProtocolError::UnknownOpcode(call.opcode)));
        if call.opcode == video_op::CREATE_DECODE_SESSION {
            match video::CreateDecodeSessionRequest::parse(call.body) {
                Err(e) => (self, Err(e)),
                Ok(req) => (
                    VideoState {
                        sessions: self.sessions.inserted(
                            VideoSessionState {
                                codec: req.codec,
                                width: req.width,
                                height: req.height,
                                frames: 0,
                            },
                        ),
                    },
                    Ok(
                        (video::CreateDecodeSessionResponse {
                            session: self.sessions.next_handle(KIND_VIDEO_SESSION),
                        }).bytes(),
                    ),
                ),
            }
        } else if call.opcode == video_op::DECODE_FRAME {
            match video::DecodeFrameRequest::parse(call.body) {
                Err(e) => (self, Err(e)),
                Ok(req) => match self.sessions.lookup(req.session) {
                    None => unknown,
                    Some(state) => (
                        VideoState {
                            sessions: self.sessions.updated(
                                req.session,
                                VideoSessionState { frames: next_frame(state.frames), ..state },
                            ),
                        },
                        Ok((video::DecodeFrameResponse { frame_index: state.frames }).bytes()),
                    ),
                },
            }
        } else if call.opcode == video_op::DESTROY_SESSION {
            match video::DestroySessionRequest::parse(call.body) {
                Err(e) => (self, Err(e)),
                Ok(req) => if self.sessions.lookup(req.session) is Some {
                    (
                        VideoState { sessions: self.sessions.removed(req.session) },
                        Ok(seq![]),
                    )
                } else {
                    unknown
                },
            }
        } else {
            unknown
        }
    }

    proof fn law_step_keeps(self, call: Call) {
        crate::handles::law_table_keeps(self.sessions);
    }

    proof fn law_refusal_changes_nothing(self, call: Call) {
    }

    proof fn law_req_id_plays_no_part(self, call: Call, req_id: u32) {
    }
}

/// The frame counter after one more frame; it stays at its maximum.
pub open spec fn next_frame(frames: u32) -> u32 {
    if frames < u32::MAX {
        (frames + 1) as u32
    } else {
        frames
    }
}

impl View for VideoBackend {
    type V = VideoState;

    open spec fn view(&self) -> VideoState {
        VideoState { sessions: self.sessions@ }
    }
}

impl VideoBackend {
    /// Create a new video backend stub with an empty session table.
    #[must_use]
    pub fn new() -> (backend: Self)
        ensures
            backend.inv(),
            backend@ == VideoState::empty(),
    {
        Self { sessions: HandleTable::new() }
    }
}

impl Default for VideoBackend {
    fn default() -> (backend: Self)
        ensures
            backend.inv(),
            backend@ == VideoState::empty(),
    {
        Self::new()
    }
}

impl Backend for VideoBackend {
    open spec fn inv(&self) -> bool {
        self.sessions.wf()
    }

    open spec fn spec_api(&self) -> proto::ApiId {
        proto::ApiId::Video
    }

    open spec fn answer(&self, past: Seq<Call>, call: Call) -> Answer {
        super::backend::run_answer(self@, past, call)
    }

    fn api(&self) -> (api: proto::ApiId) {
        proto::ApiId::Video
    }

    fn handle(
        &mut self,
        opcode: u32,
        req_id: u32,
        body: &[u8],
    ) -> (r: Result<Vec<u8>, proto::ProtocolError>)
        ensures
            (final(self)@, super::backend::answer_of(r)) == old(self)@.step(
                Call { opcode, req_id, body: body@ },
            ),
    {
        proof {
            super::backend::law_step_then_answer(self@, Call { opcode, req_id, body: body@ });
        }
        // Reject anything outside the Video namespace outright.
        if proto::opcode_api(opcode) != proto::ApiId::Video.to_byte() {
            return Err(proto::ProtocolError::UnknownOpcode(opcode));
        }
        match opcode {
            video_op::CREATE_DECODE_SESSION => {
                let req = video::CreateDecodeSessionRequest::decode(body)?;
                let session = self.sessions.insert(
                    KIND_VIDEO_SESSION,
                    VideoSessionState {
                        codec: req.codec,
                        width: req.width,
                        height: req.height,
                        frames: 0,
                    },
                );
                let mut out: Vec<u8> = Vec::new();
                (video::CreateDecodeSessionResponse { session }).encode(&mut out);
                Ok(out)
            },
            video_op::DECODE_FRAME => {
                let req = video::DecodeFrameRequest::decode(body)?;
                // The session must have been created on this backend and still
                // be live.
                let state = match self.sessions.get_mut(req.session) {
                    Some(state) => state,
                    None => {
                        return Err(proto::ProtocolError::UnknownOpcode(opcode));
                    },
                };
                // Take the current frame count as this frame's index, then
                // advance the counter for the next call.
                let frame_index: u32 = state.frames;
                state.frames = state.frames.saturating_add(1);
                let mut out: Vec<u8> = Vec::new();
                (video::DecodeFrameResponse { frame_index }).encode(&mut out);
                Ok(out)
            },
            video_op::DESTROY_SESSION => {
                let req = video::DestroySessionRequest::decode(body)?;
                // The session must have been created on this backend and still
                // be live; removing it both validates and destroys it.
                if self.sessions.remove(req.session).is_none() {
                    return Err(proto::ProtocolError::UnknownOpcode(opcode));
                }
                // Acknowledge with an empty body.
                Ok(Vec::new())
            },
            // Everything else in the Video namespace is not implemented yet.
            other => Err(proto::ProtocolError::UnknownOpcode(other)),
        }
    }
}

impl Keeps<VideoSessionState> for VideoState {
    open spec fn table(self) -> TableState<VideoSessionState> {
        self.sessions
    }

    open spec fn op(self, call: Call) -> TableOp<VideoSessionState> {
        if call.opcode == video_op::CREATE_DECODE_SESSION {
            match video::CreateDecodeSessionRequest::parse(call.body) {
                Ok(req) => TableOp::Insert(
                    VideoSessionState {
                        codec: req.codec,
                        width: req.width,
                        height: req.height,
                        frames: 0,
                    },
                ),
                Err(_) => TableOp::Read,
            }
        } else if call.opcode == video_op::DECODE_FRAME {
            match video::DecodeFrameRequest::parse(call.body) {
                Ok(req) => match self.sessions.lookup(req.session) {
                    Some(state) => TableOp::Update(
                        req.session,
                        VideoSessionState { frames: next_frame(state.frames), ..state },
                    ),
                    None => TableOp::Read,
                },
                Err(_) => TableOp::Read,
            }
        } else if call.opcode == video_op::DESTROY_SESSION {
            match video::DestroySessionRequest::parse(call.body) {
                Ok(req) => TableOp::Remove(req.session),
                Err(_) => TableOp::Read,
            }
        } else {
            TableOp::Read
        }
    }

    proof fn law_call_is_op(self, call: Call) {
    }
}

/// Whether `call` is a [`video_op::DESTROY_SESSION`] that names the object of `h`.
pub open spec fn is_destroy_session(call: Call, h: proto::Handle) -> bool {
    &&& call.opcode == video_op::DESTROY_SESSION
    &&& video::DestroySessionRequest::parse(call.body) matches Ok(req)
    &&& handles::same_object(req.session, h)
}

/// The history of the sessions: a call has made the object of a handle if and only
/// if it was a [`video_op::CREATE_DECODE_SESSION`] answered with a handle of the
/// same slot and generation, and takes it away if and only if it is a
/// [`video_op::DESTROY_SESSION`] that names it.
pub proof fn law_sessions_history(past: Seq<Call>, i: int, h: proto::Handle)
    ensures
        backend::makes::<VideoSessionState, VideoState>(VideoState::empty(), past, i, h) <==> {
            &&& 0 <= i < past.len()
            &&& past[i].opcode == video_op::CREATE_DECODE_SESSION
            &&& exists|g: proto::Handle| #[trigger]
                handles::same_object(g, h) && backend::run_answer(
                    VideoState::empty(),
                    past.take(i),
                    past[i],
                ) == Answer::Ok((video::CreateDecodeSessionResponse { session: g }).bytes())
        },
        backend::takes::<VideoSessionState, VideoState>(VideoState::empty(), past, i, h)
            <==> 0 <= i < past.len() && is_destroy_session(past[i], h),
{
    if 0 <= i < past.len() {
        let s = backend::run_state(VideoState::empty(), past.take(i));
        let made = s.sessions.next_handle(KIND_VIDEO_SESSION);
        backend::law_answer_of_state(VideoState::empty(), past.take(i), past[i]);
        handles::law_next_handle_kinds(s.sessions, 0, KIND_VIDEO_SESSION);
        let of_made = video::CreateDecodeSessionResponse { session: made };
        of_made.law_whole();
        if backend::makes::<VideoSessionState, VideoState>(VideoState::empty(), past, i, h) {
            assert(handles::same_object(made, h));
        }
        if exists|g: proto::Handle| #[trigger]
            handles::same_object(g, h) && backend::run_answer(
                VideoState::empty(),
                past.take(i),
                past[i],
            ) == Answer::Ok((video::CreateDecodeSessionResponse { session: g }).bytes()) {
            let g = choose|g: proto::Handle| #[trigger]
                handles::same_object(g, h) && backend::run_answer(
                    VideoState::empty(),
                    past.take(i),
                    past[i],
                ) == Answer::Ok((video::CreateDecodeSessionResponse { session: g }).bytes());
            let of_g = video::CreateDecodeSessionResponse { session: g };
            of_g.law_whole();
        }
    }
}

/// No two [`video_op::CREATE_DECODE_SESSION`] calls are answered with handles of
/// the same slot and generation, and each handle is of its kind.
pub proof fn law_create_decode_session_issues_once(
    past: Seq<Call>,
    i: int,
    j: int,
    g: proto::Handle,
    h: proto::Handle,
)
    requires
        0 <= i < j < past.len(),
        past[i].opcode == video_op::CREATE_DECODE_SESSION,
        past[j].opcode == video_op::CREATE_DECODE_SESSION,
        backend::run_answer(VideoState::empty(), past.take(i), past[i]) == Answer::Ok(
            (video::CreateDecodeSessionResponse { session: g }).bytes(),
        ),
        backend::run_answer(VideoState::empty(), past.take(j), past[j]) == Answer::Ok(
            (video::CreateDecodeSessionResponse { session: h }).bytes(),
        ),
        backend::run_state(VideoState::empty(), past).sessions.slots.len() <= 0x1_0000_0000,
    ensures
        !handles::same_object(g, h),
        g.spec_kind() == KIND_VIDEO_SESSION,
        h.spec_kind() == KIND_VIDEO_SESSION,
{
    let empty = VideoState::empty();
    let s = backend::run_state(empty, past.take(i));
    let t = backend::run_state(empty, past.take(j));
    backend::law_answer_of_state(empty, past.take(i), past[i]);
    backend::law_answer_of_state(empty, past.take(j), past[j]);
    let of_g = video::CreateDecodeSessionResponse { session: g };
    of_g.law_whole();
    let of_h = video::CreateDecodeSessionResponse { session: h };
    of_h.law_whole();
    let made_i = s.sessions.next_handle(KIND_VIDEO_SESSION);
    let of_made_i = video::CreateDecodeSessionResponse { session: made_i };
    of_made_i.law_whole();
    let made_j = t.sessions.next_handle(KIND_VIDEO_SESSION);
    let of_made_j = video::CreateDecodeSessionResponse { session: made_j };
    of_made_j.law_whole();
    backend::law_made_once::<VideoSessionState, VideoState>(empty, past, i, j, KIND_VIDEO_SESSION);
}

/// A [`video_op::DESTROY_SESSION`] is answered if and only if the session it names
/// was made by an earlier call and not taken away since; else it is refused.
pub proof fn law_destroy_session_iff_live(past: Seq<Call>, call: Call)
    requires
        call.opcode == video_op::DESTROY_SESSION,
        video::DestroySessionRequest::parse(call.body) is Ok,
        backend::run_state(VideoState::empty(), past).sessions.slots.len() <= 0x1_0000_0000,
    ensures
        ({
            let h = video::DestroySessionRequest::parse(call.body)->Ok_0.session;
            if backend::is_live::<VideoSessionState, VideoState>(VideoState::empty(), past, h) {
                backend::run_answer(VideoState::empty(), past, call) == Answer::Ok(seq![])
            } else {
                backend::run_answer(VideoState::empty(), past, call) == Answer::Err(
                    proto::ProtocolError::UnknownOpcode(call.opcode),
                )
            }
        }),
{
    let h = video::DestroySessionRequest::parse(call.body)->Ok_0.session;
    backend::law_live_is_history::<VideoSessionState, VideoState>(VideoState::empty(), past, h);
    backend::law_answer_of_state(VideoState::empty(), past, call);
}

/// A [`video_op::DECODE_FRAME`] is answered if and only if the session it names was
/// made by an earlier call and not taken away since; else it is refused.
pub proof fn law_decode_frame_iff_live(past: Seq<Call>, call: Call)
    requires
        call.opcode == video_op::DECODE_FRAME,
        video::DecodeFrameRequest::parse(call.body) is Ok,
        backend::run_state(VideoState::empty(), past).sessions.slots.len() <= 0x1_0000_0000,
    ensures
        ({
            let h = video::DecodeFrameRequest::parse(call.body)->Ok_0.session;
            if backend::is_live::<VideoSessionState, VideoState>(VideoState::empty(), past, h) {
                backend::run_answer(VideoState::empty(), past, call) is Ok
            } else {
                backend::run_answer(VideoState::empty(), past, call) == Answer::Err(
                    proto::ProtocolError::UnknownOpcode(call.opcode),
                )
            }
        }),
{
    let h = video::DecodeFrameRequest::parse(call.body)->Ok_0.session;
    backend::law_live_is_history::<VideoSessionState, VideoState>(VideoState::empty(), past, h);
    backend::law_answer_of_state(VideoState::empty(), past, call);
}

/// What [`video_op::CREATE_DECODE_SESSION`] hands out can be used for
/// [`video_op::DESTROY_SESSION`], whatever calls come between that do not take it
/// away.
pub proof fn law_create_decode_session_then_destroy_session(
    s: VideoState,
    make: Call,
    past: Seq<Call>,
    call: Call,
)
    requires
        s.ok(),
        s.sessions.free.len() > 0 || s.sessions.slots.len() < 0x1_0000_0000,
        make.opcode == video_op::CREATE_DECODE_SESSION,
        video::CreateDecodeSessionRequest::parse(make.body) is Ok,
        call.opcode == video_op::DESTROY_SESSION,
        video::DestroySessionRequest::parse(call.body) matches Ok(req) && handles::same_object(
            req.session,
            s.sessions.next_handle(KIND_VIDEO_SESSION),
        ),
        forall|j: int| 0 <= j < past.len() ==> !is_destroy_session(
            #[trigger] past[j],
            s.sessions.next_handle(KIND_VIDEO_SESSION),
        ),
    ensures
        s.step(make).1 == Answer::Ok(
            (video::CreateDecodeSessionResponse {
                session: s.sessions.next_handle(KIND_VIDEO_SESSION),
            }).bytes(),
        ),
        backend::run_answer(s.step(make).0, past, call) == Answer::Ok(seq![]),
{
    let req = video::CreateDecodeSessionRequest::parse(make.body)->Ok_0;
    handles::law_insert_resolves(
        s.sessions,
        KIND_VIDEO_SESSION,
        VideoSessionState { codec: req.codec, width: req.width, height: req.height, frames: 0 },
    );
    let h = s.sessions.next_handle(KIND_VIDEO_SESSION);
    let after = s.step(make).0;
    s.law_step_keeps(make);
    backend::law_answer_of_state(after, past, call);
    assert forall|j: int| !(#[trigger] backend::takes::<VideoSessionState, VideoState>(
        after,
        past,
        j,
        h,
    )) by {
        if 0 <= j < past.len() {
            assert(!is_destroy_session(past[j], h));
        }
    }
    backend::law_stays_live::<VideoSessionState, VideoState>(after, past, h);
}

/// What [`video_op::CREATE_DECODE_SESSION`] hands out can be used for
/// [`video_op::DECODE_FRAME`], whatever calls come between that do not take it
/// away.
pub proof fn law_create_decode_session_then_decode_frame(
    s: VideoState,
    make: Call,
    past: Seq<Call>,
    call: Call,
)
    requires
        s.ok(),
        s.sessions.free.len() > 0 || s.sessions.slots.len() < 0x1_0000_0000,
        make.opcode == video_op::CREATE_DECODE_SESSION,
        video::CreateDecodeSessionRequest::parse(make.body) is Ok,
        call.opcode == video_op::DECODE_FRAME,
        video::DecodeFrameRequest::parse(call.body) matches Ok(req) && handles::same_object(
            req.session,
            s.sessions.next_handle(KIND_VIDEO_SESSION),
        ),
        forall|j: int| 0 <= j < past.len() ==> !is_destroy_session(
            #[trigger] past[j],
            s.sessions.next_handle(KIND_VIDEO_SESSION),
        ),
    ensures
        s.step(make).1 == Answer::Ok(
            (video::CreateDecodeSessionResponse {
                session: s.sessions.next_handle(KIND_VIDEO_SESSION),
            }).bytes(),
        ),
        backend::run_answer(s.step(make).0, past, call) is Ok,
{
    let req = video::CreateDecodeSessionRequest::parse(make.body)->Ok_0;
    handles::law_insert_resolves(
        s.sessions,
        KIND_VIDEO_SESSION,
        VideoSessionState { codec: req.codec, width: req.width, height: req.height, frames: 0 },
    );
    let h = s.sessions.next_handle(KIND_VIDEO_SESSION);
    let after = s.step(make).0;
    s.law_step_keeps(make);
    backend::law_answer_of_state(after, past, call);
    assert forall|j: int| !(#[trigger] backend::takes::<VideoSessionState, VideoState>(
        after,
        past,
        j,
        h,
    )) by {
        if 0 <= j < past.len() {
            assert(!is_destroy_session(past[j], h));
        }
    }
    backend::law_stays_live::<VideoSessionState, VideoState>(after, past, h);
}

/// What a [`video_op::DESTROY_SESSION`] has taken away stays away: a call that
/// names the same object is refused afterwards, whatever calls come between.
pub proof fn law_destroy_session_is_final(
    s: VideoState,
    h: proto::Handle,
    past: Seq<Call>,
    call: Call,
    again: Call,
)
    requires
        s.ok(),
        s.sessions.lookup(h) is Some,
        is_destroy_session(call, h),
        is_destroy_session(again, h),
    ensures
        s.step(call).1 == Answer::Ok(seq![]),
        backend::run_answer(s.step(call).0, past, again)
            == Answer::Err(proto::ProtocolError::UnknownOpcode(again.opcode)),
{
    s.law_step_keeps(call);
    backend::law_answer_of_state(s.step(call).0, past, again);
    backend::law_gone_stays_gone::<VideoSessionState, VideoState>(s.step(call).0, past, h);
}

/// Whether `call` is a [`video_op::DECODE_FRAME`] that names the object of `h`.
pub open spec fn is_decode_frame(call: Call, h: proto::Handle) -> bool {
    &&& call.opcode == video_op::DECODE_FRAME
    &&& video::DecodeFrameRequest::parse(call.body) matches Ok(req)
    &&& handles::same_object(req.session, h)
}

/// How many calls of a run are frames for the object of `h`.
pub open spec fn frames_for(past: Seq<Call>, h: proto::Handle) -> nat
    decreases past.len(),
{
    if past.len() == 0 {
        0
    } else if is_decode_frame(past[0], h) {
        1 + frames_for(past.skip(1), h)
    } else {
        frames_for(past.skip(1), h)
    }
}

/// The frame counter `n` frames after it stood at `frames`; it stays at its
/// maximum.
pub open spec fn counted(frames: u32, n: nat) -> u32 {
    if frames + n < u32::MAX {
        (frames + n) as u32
    } else {
        u32::MAX
    }
}

/// The counter of a live session moves on by one for each of its own frames, and
/// for nothing else: not for the frames of other sessions, not for calls that are
/// refused. Every frame is answered.
pub proof fn law_frames_counted(s: VideoState, h: proto::Handle, past: Seq<Call>, call: Call)
    requires
        s.ok(),
        s.sessions.lookup(h) is Some,
        forall|j: int| 0 <= j < past.len() ==> !is_destroy_session(#[trigger] past[j], h),
        is_decode_frame(call, h),
    ensures
        ({
            let state = s.sessions.lookup(h)->0;
            let frames = counted(state.frames, frames_for(past, h));
            &&& backend::run_state(s, past).sessions.lookup(h) == Some(
                VideoSessionState { frames, ..state },
            )
            &&& backend::run_answer(s, past, call) == Answer::Ok(
                (video::DecodeFrameResponse { frame_index: frames }).bytes(),
            )
        }),
    decreases past.len(),
{
    if past.len() > 0 {
        let next = s.step(past[0]).0;
        s.law_step_keeps(past[0]);
        <VideoState as Keeps<VideoSessionState>>::law_call_is_op(s, past[0]);
        assert(!is_destroy_session(past[0], h));
        if past[0].opcode == video_op::CREATE_DECODE_SESSION {
            if let Ok(req) = video::CreateDecodeSessionRequest::parse(past[0].body) {
                handles::law_insert_keeps_others(
                    s.sessions,
                    0,
                    VideoSessionState {
                        codec: req.codec,
                        width: req.width,
                        height: req.height,
                        frames: 0,
                    },
                    h,
                );
            }
        }
        assert forall|j: int| 0 <= j < past.skip(1).len() implies !is_destroy_session(
            #[trigger] past.skip(1)[j],
            h,
        ) by {
            assert(past.skip(1)[j] == past[j + 1]);
        }
        law_frames_counted(next, h, past.skip(1), call);
    }
}

/// A new session counts its frames from zero, whatever became of an earlier one in
/// its slot.
pub proof fn law_frames_count_from_zero(
    s: VideoState,
    make: Call,
    past: Seq<Call>,
    call: Call,
)
    requires
        s.ok(),
        s.sessions.free.len() > 0 || s.sessions.slots.len() < 0x1_0000_0000,
        make.opcode == video_op::CREATE_DECODE_SESSION,
        video::CreateDecodeSessionRequest::parse(make.body) is Ok,
        forall|j: int| 0 <= j < past.len() ==> !is_destroy_session(
            #[trigger] past[j],
            s.sessions.next_handle(KIND_VIDEO_SESSION),
        ),
        is_decode_frame(call, s.sessions.next_handle(KIND_VIDEO_SESSION)),
    ensures
        ({
            let h = s.sessions.next_handle(KIND_VIDEO_SESSION);
            let frames = counted(0, frames_for(past, h));
            &&& backend::run_state(s.step(make).0, past).sessions.lookup(h) matches Some(state)
            &&& state.frames == frames
            &&& backend::run_answer(s.step(make).0, past, call) == Answer::Ok(
                (video::DecodeFrameResponse { frame_index: frames }).bytes(),
            )
        }),
{
    let req = video::CreateDecodeSessionRequest::parse(make.body)->Ok_0;
    handles::law_insert_resolves(
        s.sessions,
        KIND_VIDEO_SESSION,
        VideoSessionState {
            codec: req.codec,
            width: req.width,
            height: req.height,
            frames: 0,
        },
    );
    s.law_step_keeps(make);
    law_frames_counted(s.step(make).0, s.sessions.next_handle(KIND_VIDEO_SESSION), past, call);
}

/// A frame moves the counter of its own session on by one and leaves every other
/// session as it was.
pub proof fn law_frame_counts(s: VideoState, h: proto::Handle, other: proto::Handle, call: Call)
    requires
        s.sessions.lookup(h) is Some,
        other.spec_slot() != h.spec_slot(),
        call.opcode == video_op::DECODE_FRAME,
        video::DecodeFrameRequest::parse(call.body) matches Ok(req) && req.session == h,
    ensures
        s.step(call).0.sessions.lookup(h) == Some(
            VideoSessionState {
                frames: next_frame(s.sessions.lookup(h)->0.frames),
                ..s.sessions.lookup(h)->0
            },
        ),
        s.step(call).0.sessions.lookup(other) == s.sessions.lookup(other),
{
}

/// A [`video_op::CREATE_DECODE_SESSION`] is always answered, whatever calls came
/// before and whatever bytes follow the request, with a handle of its kind. As long
/// as a slot index is left, the handle names a session that was not there before
/// and that holds what was asked for; nothing else changes.
pub proof fn law_create_decode_session_answered(
    s: VideoState,
    req: video::CreateDecodeSessionRequest,
    rest: Seq<u8>,
    req_id: u32,
) -> (h: proto::Handle)
    ensures
        ({
            let call = Call {
                opcode: video_op::CREATE_DECODE_SESSION,
                req_id,
                body: req.bytes() + rest,
            };
            let (after, answer) = s.step(call);
            &&& answer == Answer::Ok((video::CreateDecodeSessionResponse { session: h }).bytes())
            &&& h.spec_kind() == KIND_VIDEO_SESSION
            &&& s.ok() && (s.sessions.free.len() > 0 || s.sessions.slots.len()
                < 0x1_0000_0000) ==> {
                &&& s.sessions.lookup(h) is None
                &&& after.sessions.lookup(h) == Some(
                    VideoSessionState {
                        codec: req.codec,
                        width: req.width,
                        height: req.height,
                        frames: 0,
                    },
                )
                &&& forall|g: proto::Handle|
                    !handles::same_object(g, h) ==> #[trigger] after.sessions.lookup(g)
                        == s.sessions.lookup(g)
            }
        }),
{
    req.law_round_trip(rest);
    handles::law_insert_issues(
        s.sessions,
        KIND_VIDEO_SESSION,
        VideoSessionState { codec: req.codec, width: req.width, height: req.height, frames: 0 },
    );
    s.sessions.next_handle(KIND_VIDEO_SESSION)
}

/// A [`video_op::DESTROY_SESSION`] takes away the session it names, and nothing
/// else, and is acknowledged with an empty body; where there is no such session it
/// is refused by its opcode and nothing changes. What follows the request plays no
/// part.
pub proof fn law_destroy_session_takes_one(
    s: VideoState,
    req: video::DestroySessionRequest,
    rest: Seq<u8>,
    req_id: u32,
)
    ensures
        ({
            let call = Call { opcode: video_op::DESTROY_SESSION, req_id, body: req.bytes() + rest };
            let (after, answer) = s.step(call);
            &&& s.sessions.lookup(req.session) is Some ==> {
                &&& answer == Answer::Ok(seq![])
                &&& forall|g: proto::Handle|
                    handles::same_object(g, req.session) ==> #[trigger] after.sessions.lookup(
                        g,
                    ) is None
            }
            &&& s.sessions.lookup(req.session) is None ==> {
                &&& answer == Answer::Err(
                    proto::ProtocolError::UnknownOpcode(video_op::DESTROY_SESSION),
                )
                &&& after == s
            }
            &&& forall|g: proto::Handle|
                !handles::same_object(g, req.session) ==> #[trigger] after.sessions.lookup(g)
                    == s.sessions.lookup(g)
        }),
{
    req.law_round_trip(rest);
    handles::law_remove_takes_one(s.sessions, req.session);
}

/// A [`video_op::DECODE_FRAME`] for a live session is answered with the index that
/// is due, counted per session, and moves the counter of that session on by one
/// until it is full; nothing else changes. For any other session it is refused by
/// its opcode.
pub proof fn law_decode_frame_answered(
    s: VideoState,
    req: video::DecodeFrameRequest,
    rest: Seq<u8>,
    req_id: u32,
)
    requires
        s.ok(),
    ensures
        ({
            let call = Call { opcode: video_op::DECODE_FRAME, req_id, body: req.bytes() + rest };
            let (after, answer) = s.step(call);
            match s.sessions.lookup(req.session) {
                Some(state) => {
                    &&& answer == Answer::Ok(
                        (video::DecodeFrameResponse { frame_index: state.frames }).bytes(),
                    )
                    &&& forall|g: proto::Handle|
                        handles::same_object(g, req.session) ==> (#[trigger] after.sessions.lookup(
                            g,
                        ) matches Some(now) && now.frames == if state.frames == u32::MAX {
                            u32::MAX as int
                        } else {
                            state.frames + 1
                        } && now.codec == state.codec && now.width == state.width && now.height
                            == state.height)
                    &&& forall|g: proto::Handle|
                        !handles::same_object(g, req.session) ==> #[trigger] after.sessions.lookup(
                            g,
                        ) == s.sessions.lookup(g)
                },
                None => {
                    &&& after == s
                    &&& answer == Answer::Err(
                        proto::ProtocolError::UnknownOpcode(video_op::DECODE_FRAME),
                    )
                },
            }
        }),
{
    req.law_round_trip(rest);
    if let Some(state) = s.sessions.lookup(req.session) {
        handles::law_update_changes_one(
            s.sessions,
            req.session,
            VideoSessionState { frames: next_frame(state.frames), ..state },
        );
    }
}

/// A call whose body is too short for its request is refused as an unexpected end,
/// and changes nothing.
pub proof fn law_short_bodies_refused(s: VideoState, call: Call)
    requires
        ({
            ||| call.opcode == video_op::CREATE_DECODE_SESSION && call.body.len() < 12
            ||| call.opcode == video_op::DESTROY_SESSION && call.body.len() < 8
            ||| call.opcode == video_op::DECODE_FRAME && call.body.len() < 12
        }),
    ensures
        s.step(call) == (s, Answer::Err(proto::ProtocolError::UnexpectedEof)),
{
}

/// Only calls of the backend's own namespace are answered. Every other opcode, of
/// the namespace or not, is refused by that opcode, whatever its body holds, and
/// changes nothing.
pub proof fn law_other_calls_refused(s: VideoState, call: Call)
    ensures
        s.step(call).1 is Ok ==> call.opcode / 0x100_0000 == proto::ApiId::Video.byte(),
        ({
            &&& call.opcode != video_op::CREATE_DECODE_SESSION
            &&& call.opcode != video_op::DESTROY_SESSION
            &&& call.opcode != video_op::DECODE_FRAME
        }) ==> s.step(call) == (
            s,
            Answer::Err(proto::ProtocolError::UnknownOpcode(call.opcode)),
        ),
{
}

/// A new backend serves the namespace of its API, and holds nothing that a handle
/// resolves to.
pub proof fn law_new_backend(
    backend: VideoBackend,
    reader: &VideoBackend,
    api: proto::ApiId,
    h: proto::Handle,
)
    requires
        call_ensures(VideoBackend::new, (), backend),
        call_ensures(<VideoBackend as Backend>::api, (reader,), api),
    ensures
        api == proto::ApiId::Video,
        api.byte() == 7,
        backend.inv(),
        backend@.sessions.lookup(h) is None,
{
}

} // verus!
