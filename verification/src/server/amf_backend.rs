//! AMF video-encode backend dispatch.
//!
//! The [`Session`](crate::server::Session) routes any AMF-namespace opcode to this
//! backend. Like the Vulkan, OpenGL, CUDA, HIP, OpenCL, Level Zero, and video
//! backends, the AMF backend is a pure-Rust **stub**: it tracks encoder
//! lifetimes in a generational handle table and a per-encoder frame counter,
//! but performs no real codec or driver work. No AMF SDK, GPU, or FFI
//! dependency is involved.
use vstd::prelude::*;

use super::backend;
use super::backend::{Answer, Backend, Call, Keeps, Machine};
use crate::handles;
use crate::handles::{HandleTable, TableOp, TableState};
use crate::protocol as proto;
use crate::protocol::amf;
use crate::protocol::amf_op;
use crate::protocol::wire::Wire;

verus! {

broadcast use crate::protocol::bytes::lemma_append_to_empty;

/// Server object kind for an AMF encoder handle.
pub const KIND_AMF_ENCODER: u8 = 100;

/// Server-side state tracked for one created AMF encoder.
#[derive(Debug)]
pub struct AmfEncoderState {
    /// Codec identifier the encoder produces. Recorded for the validation in
    /// the driver bridge.
    pub codec: u32,
    /// Encoded frame width in pixels.
    pub width: u32,
    /// Encoded frame height in pixels.
    pub height: u32,
    /// Number of frames submitted to this encoder so far. Each `ENCODE_FRAME`
    /// advances it.
    pub frames: u32,
}

/// Pure-Rust AMF encode backend stub.
///
/// Owns a generational handle table for the encoders it tracks. It answers
/// [`amf_op::CREATE_ENCODER`](proto::amf_op::CREATE_ENCODER) by minting an
/// encoder handle, [`amf_op::ENCODE_FRAME`](proto::amf_op::ENCODE_FRAME) by
/// echoing the input frame length back as the produced packet length and
/// advancing the encoder's frame counter, and
/// [`amf_op::DESTROY_ENCODER`](proto::amf_op::DESTROY_ENCODER) by removing a
/// known encoder handle and acknowledging with an empty body. The real codec
/// bridge lands later; every other AMF call is reported as
/// not-yet-implemented via
/// [`ProtocolError::UnknownOpcode`](proto::ProtocolError::UnknownOpcode).
pub struct AmfBackend {
    /// The encoders.
    pub encoders: HandleTable<AmfEncoderState>,
}

/// What the AMF backend holds.
pub ghost struct AmfState {
    /// The encoders.
    pub encoders: TableState<AmfEncoderState>,
}

impl AmfState {
    /// The state without objects.
    pub open spec fn empty() -> Self {
        AmfState { encoders: TableState::empty() }
    }
}

impl Machine for AmfState {
    open spec fn ok(self) -> bool {
        self.encoders.inv()
    }

    open spec fn step(self, call: Call) -> (Self, Answer) {
        let unknown: (Self, Answer) = (self, Err(proto::ProtocolError::UnknownOpcode(call.opcode)));
        if call.opcode == amf_op::CREATE_ENCODER {
            match amf::CreateEncoderRequest::parse(call.body) {
                Err(e) => (self, Err(e)),
                Ok(req) => (
                    AmfState {
                        encoders: self.encoders.inserted(
                            AmfEncoderState {
                                codec: req.codec,
                                width: req.width,
                                height: req.height,
                                frames: 0,
                            },
                        ),
                    },
                    Ok(
                        (amf::CreateEncoderResponse {
                            encoder: self.encoders.next_handle(KIND_AMF_ENCODER),
                        }).bytes(),
                    ),
                ),
            }
        } else if call.opcode == amf_op::ENCODE_FRAME {
            match amf::EncodeFrameRequest::parse(call.body) {
                Err(e) => (self, Err(e)),
                Ok(req) => match self.encoders.lookup(req.encoder) {
                    None => unknown,
                    Some(state) => (
                        AmfState {
                            encoders: self.encoders.updated(
                                req.encoder,
                                AmfEncoderState { frames: next_frame(state.frames), ..state },
                            ),
                        },
                        Ok((amf::EncodeFrameResponse { packet_len: req.frame_len }).bytes()),
                    ),
                },
            }
        } else if call.opcode == amf_op::DESTROY_ENCODER {
            match amf::DestroyEncoderRequest::parse(call.body) {
                Err(e) => (self, Err(e)),
                Ok(req) => if self.encoders.lookup(req.encoder) is Some {
                    (
                        AmfState { encoders: self.encoders.removed(req.encoder) },
                        Ok(seq![]),
                    )
                } else {
                    unknown
                },
            }
        } else {
            unknown
        }
    }

    proof fn law_step_keeps(self, call: Call) {
        crate::handles::law_table_keeps(self.encoders);
    }

    proof fn law_refusal_changes_nothing(self, call: Call) {
    }

    proof fn law_req_id_plays_no_part(self, call: Call, req_id: u32) {
    }
}

/// The frame counter after one more frame; it stays at its maximum.
pub open spec fn next_frame(frames: u32) -> u32 {
    if frames < u32::MAX {
        (frames + 1) as u32
    } else {
        frames
    }
}

impl View for AmfBackend {
    type V = AmfState;

    open spec fn view(&self) -> AmfState {
        AmfState { encoders: self.encoders@ }
    }
}

impl AmfBackend {
    /// Create a new AMF backend stub with an empty encoder table.
    #[must_use]
    pub fn new() -> (backend: Self)
        ensures
            backend.inv(),
            backend@ == AmfState::empty(),
    {
        Self { encoders: HandleTable::new() }
    }
}

impl Default for AmfBackend {
    fn default() -> (backend: Self)
        ensures
            backend.inv(),
            backend@ == AmfState::empty(),
    {
        Self::new()
    }
}

impl Backend for AmfBackend {
    open spec fn inv(&self) -> bool {
        self.encoders.wf()
    }

    open spec fn spec_api(&self) -> proto::ApiId {
        proto::ApiId::Amf
    }

    open spec fn answer(&self, past: Seq<Call>, call: Call) -> Answer {
        super::backend::run_answer(self@, past, call)
    }

    fn api(&self) -> (api: proto::ApiId) {
        proto::ApiId::Amf
    }

    fn handle(
        &mut self,
        opcode: u32,
        req_id: u32,
        body: &[u8],
    ) -> (r: Result<Vec<u8>, proto::ProtocolError>)
        ensures
            (final(self)@, super::backend::answer_of(r)) == old(self)@.step(
                Call { opcode, req_id, body: body@ },
            ),
    {
        proof {
            super::backend::law_step_then_answer(self@, Call { opcode, req_id, body: body@ });
        }
        // Reject anything outside the AMF namespace outright.
        if proto::opcode_api(opcode) != proto::ApiId::Amf.to_byte() {
            return Err(proto::ProtocolError::UnknownOpcode(opcode));
        }
        match opcode {
            amf_op::CREATE_ENCODER => {
                let req = amf::CreateEncoderRequest::decode(body)?;
                let encoder = self.encoders.insert(
                    KIND_AMF_ENCODER,
                    AmfEncoderState {
                        codec: req.codec,
                        width: req.width,
                        height: req.height,
                        frames: 0,
                    },
                );
                let mut out: Vec<u8> = Vec::new();
                (amf::CreateEncoderResponse { encoder }).encode(&mut out);
                Ok(out)
            },
            amf_op::ENCODE_FRAME => {
                let req = amf::EncodeFrameRequest::decode(body)?;
                // The encoder must have been created on this backend and still
                // be live.
                let state = match self.encoders.get_mut(req.encoder) {
                    Some(state) => state,
                    None => {
                        return Err(proto::ProtocolError::UnknownOpcode(opcode));
                    },
                };
                // Advance the per-encoder frame counter and echo the input
                // frame length back as the produced packet length.
                state.frames = state.frames.saturating_add(1);
                let mut out: Vec<u8> = Vec::new();
                (amf::EncodeFrameResponse { packet_len: req.frame_len }).encode(&mut out);
                Ok(out)
            },
            amf_op::DESTROY_ENCODER => {
                let req = amf::DestroyEncoderRequest::decode(body)?;
                // The encoder must have been created on this backend and still
                // be live; removing it both validates and destroys it.
                if self.encoders.remove(req.encoder).is_none() {
                    return Err(proto::ProtocolError::UnknownOpcode(opcode));
                }
                // Acknowledge with an empty body.
                Ok(Vec::new())
            },
            // Everything else in the AMF namespace is not implemented yet.
            other => Err(proto::ProtocolError::UnknownOpcode(other)),
        }
    }
}

impl Keeps<AmfEncoderState> for AmfState {
    open spec fn table(self) -> TableState<AmfEncoderState> {
        self.encoders
    }

    open spec fn op(self, call: Call) -> TableOp<AmfEncoderState> {
        if call.opcode == amf_op::CREATE_ENCODER {
            match amf::CreateEncoderRequest::parse(call.body) {
                Ok(req) => TableOp::Insert(
                    AmfEncoderState {
                        codec: req.codec,
                        width: req.width,
                        height: req.height,
                        frames: 0,
                    },
                ),
                Err(_) => TableOp::Read,
            }
        } else if call.opcode == amf_op::ENCODE_FRAME {
            match amf::EncodeFrameRequest::parse(call.body) {
                Ok(req) => match self.encoders.lookup(req.encoder) {
                    Some(state) => TableOp::Update(
                        req.encoder,
                        AmfEncoderState { frames: next_frame(state.frames), ..state },
                    ),
                    None => TableOp::Read,
                },
                Err(_) => TableOp::Read,
            }
        } else if call.opcode == amf_op::DESTROY_ENCODER {
            match amf::DestroyEncoderRequest::parse(call.body) {
                Ok(req) => TableOp::Remove(req.encoder),
                Err(_) => TableOp::Read,
            }
        } else {
            TableOp::Read
        }
    }

    proof fn law_call_is_op(self, call: Call) {
    }
}

/// Whether `call` is a [`amf_op::DESTROY_ENCODER`] that names the object of `h`.
pub open spec fn is_destroy_encoder(call: Call, h: proto::Handle) -> bool {
    &&& call.opcode == amf_op::DESTROY_ENCODER
    &&& amf::DestroyEncoderRequest::parse(call.body) matches Ok(req)
    &&& handles::same_object(req.encoder, h)
}

/// The history of the encoders: a call has made the object of a handle if and only
/// if it was a [`amf_op::CREATE_ENCODER`] answered with a handle of the same slot
/// and generation, and takes it away if and only if it is a
/// [`amf_op::DESTROY_ENCODER`] that names it.
pub proof fn law_encoders_history(past: Seq<Call>, i: int, h: proto::Handle)
    ensures
        backend::makes::<AmfEncoderState, AmfState>(AmfState::empty(), past, i, h) <==> {
            &&& 0 <= i < past.len()
            &&& past[i].opcode == amf_op::CREATE_ENCODER
            &&& exists|g: proto::Handle| #[trigger]
                handles::same_object(g, h) && backend::run_answer(
                    AmfState::empty(),
                    past.take(i),
                    past[i],
                ) == Answer::Ok((amf::CreateEncoderResponse { encoder: g }).bytes())
        },
        backend::takes::<AmfEncoderState, AmfState>(AmfState::empty(), past, i, h)
            <==> 0 <= i < past.len() && is_destroy_encoder(past[i], h),
{
    if 0 <= i < past.len() {
        let s = backend::run_state(AmfState::empty(), past.take(i));
        let made = s.encoders.next_handle(KIND_AMF_ENCODER);
        backend::law_answer_of_state(AmfState::empty(), past.take(i), past[i]);
        handles::law_next_handle_kinds(s.encoders, 0, KIND_AMF_ENCODER);
        let of_made = amf::CreateEncoderResponse { encoder: made };
        of_made.law_whole();
        if backend::makes::<AmfEncoderState, AmfState>(AmfState::empty(), past, i, h) {
            assert(handles::same_object(made, h));
        }
        if exists|g: proto::Handle| #[trigger]
            handles::same_object(g, h) && backend::run_answer(
                AmfState::empty(),
                past.take(i),
                past[i],
            ) == Answer::Ok((amf::CreateEncoderResponse { encoder: g }).bytes()) {
            let g = choose|g: proto::Handle| #[trigger]
                handles::same_object(g, h) && backend::run_answer(
                    AmfState::empty(),
                    past.take(i),
                    past[i],
                ) == Answer::Ok((amf::CreateEncoderResponse { encoder: g }).bytes());
            let of_g = amf::CreateEncoderResponse { encoder: g };
            of_g.law_whole();
        }
    }
}

/// No two [`amf_op::CREATE_ENCODER`] calls are answered with handles of the same
/// slot and generation, and each handle is of its kind.
pub proof fn law_create_encoder_issues_once(
    past: Seq<Call>,
    i: int,
    j: int,
    g: proto::Handle,
    h: proto::Handle,
)
    requires
        0 <= i < j < past.len(),
        past[i].opcode == amf_op::CREATE_ENCODER,
        past[j].opcode == amf_op::CREATE_ENCODER,
        backend::run_answer(AmfState::empty(), past.take(i), past[i]) == Answer::Ok(
            (amf::CreateEncoderResponse { encoder: g }).bytes(),
        ),
        backend::run_answer(AmfState::empty(), past.take(j), past[j]) == Answer::Ok(
            (amf::CreateEncoderResponse { encoder: h }).bytes(),
        ),
        backend::run_state(AmfState::empty(), past).encoders.slots.len() <= 0x1_0000_0000,
    ensures
        !handles::same_object(g, h),
        g.spec_kind() == KIND_AMF_ENCODER,
        h.spec_kind() == KIND_AMF_ENCODER,
{
    let empty = AmfState::empty();
    let s = backend::run_state(empty, past.take(i));
    let t = backend::run_state(empty, past.take(j));
    backend::law_answer_of_state(empty, past.take(i), past[i]);
    backend::law_answer_of_state(empty, past.take(j), past[j]);
    let of_g = amf::CreateEncoderResponse { encoder: g };
    of_g.law_whole();
    let of_h = amf::CreateEncoderResponse { encoder: h };
    of_h.law_whole();
    let made_i = s.encoders.next_handle(KIND_AMF_ENCODER);
    let of_made_i = amf::CreateEncoderResponse { encoder: made_i };
    of_made_i.law_whole();
    let made_j = t.encoders.next_handle(KIND_AMF_ENCODER);
    let of_made_j = amf::CreateEncoderResponse { encoder: made_j };
    of_made_j.law_whole();
    backend::law_made_once::<AmfEncoderState, AmfState>(empty, past, i, j, KIND_AMF_ENCODER);
}

/// A [`amf_op::DESTROY_ENCODER`] is answered if and only if the encoder it names
/// was made by an earlier call and not taken away since; else it is refused.
pub proof fn law_destroy_encoder_iff_live(past: Seq<Call>, call: Call)
    requires
        call.opcode == amf_op::DESTROY_ENCODER,
        amf::DestroyEncoderRequest::parse(call.body) is Ok,
        backend::run_state(AmfState::empty(), past).encoders.slots.len() <= 0x1_0000_0000,
    ensures
        ({
            let h = amf::DestroyEncoderRequest::parse(call.body)->Ok_0.encoder;
            if backend::is_live::<AmfEncoderState, AmfState>(AmfState::empty(), past, h) {
                backend::run_answer(AmfState::empty(), past, call) == Answer::Ok(seq![])
            } else {
                backend::run_answer(AmfState::empty(), past, call) == Answer::Err(
                    proto::ProtocolError::UnknownOpcode(call.opcode),
                )
            }
        }),
{
    let h = amf::DestroyEncoderRequest::parse(call.body)->Ok_0.encoder;
    backend::law_live_is_history::<AmfEncoderState, AmfState>(AmfState::empty(), past, h);
    backend::law_answer_of_state(AmfState::empty(), past, call);
}

/// A [`amf_op::ENCODE_FRAME`] is answered if and only if the encoder it names was
/// made by an earlier call and not taken away since; else it is refused.
pub proof fn law_encode_frame_iff_live(past: Seq<Call>, call: Call)
    requires
        call.opcode == amf_op::ENCODE_FRAME,
        amf::EncodeFrameRequest::parse(call.body) is Ok,
        backend::run_state(AmfState::empty(), past).encoders.slots.len() <= 0x1_0000_0000,
    ensures
        ({
            let h = amf::EncodeFrameRequest::parse(call.body)->Ok_0.encoder;
            if backend::is_live::<AmfEncoderState, AmfState>(AmfState::empty(), past, h) {
                backend::run_answer(AmfState::empty(), past, call) == Answer::Ok(
                    (amf::EncodeFrameResponse {
                        packet_len: amf::EncodeFrameRequest::parse(call.body)->Ok_0.frame_len,
                    }).bytes(),
                )
            } else {
                backend::run_answer(AmfState::empty(), past, call) == Answer::Err(
                    proto::ProtocolError::UnknownOpcode(call.opcode),
                )
            }
        }),
{
    let h = amf::EncodeFrameRequest::parse(call.body)->Ok_0.encoder;
    backend::law_live_is_history::<AmfEncoderState, AmfState>(AmfState::empty(), past, h);
    backend::law_answer_of_state(AmfState::empty(), past, call);
}

/// What [`amf_op::CREATE_ENCODER`] hands out can be used for
/// [`amf_op::DESTROY_ENCODER`], whatever calls come between that do not take it
/// away.
pub proof fn law_create_encoder_then_destroy_encoder(
    s: AmfState,
    make: Call,
    past: Seq<Call>,
    call: Call,
)
    requires
        s.ok(),
        s.encoders.free.len() > 0 || s.encoders.slots.len() < 0x1_0000_0000,
        make.opcode == amf_op::CREATE_ENCODER,
        amf::CreateEncoderRequest::parse(make.body) is Ok,
        call.opcode == amf_op::DESTROY_ENCODER,
        amf::DestroyEncoderRequest::parse(call.body) matches Ok(req) && handles::same_object(
            req.encoder,
            s.encoders.next_handle(KIND_AMF_ENCODER),
        ),
        forall|j: int| 0 <= j < past.len() ==> !is_destroy_encoder(
            #[trigger] past[j],
            s.encoders.next_handle(KIND_AMF_ENCODER),
        ),
    ensures
        s.step(make).1 == Answer::Ok(
            (amf::CreateEncoderResponse {
                encoder: s.encoders.next_handle(KIND_AMF_ENCODER),
            }).bytes(),
        ),
        backend::run_answer(s.step(make).0, past, call) == Answer::Ok(seq![]),
{
    let req = amf::CreateEncoderRequest::parse(make.body)->Ok_0;
    handles::law_insert_resolves(
        s.encoders,
        KIND_AMF_ENCODER,
        AmfEncoderState { codec: req.codec, width: req.width, height: req.height, frames: 0 },
    );
    let h = s.encoders.next_handle(KIND_AMF_ENCODER);
    let after = s.step(make).0;
    s.law_step_keeps(make);
    backend::law_answer_of_state(after, past, call);
    assert forall|j: int| !(#[trigger] backend::takes::<AmfEncoderState, AmfState>(
        after,
        past,
        j,
        h,
    )) by {
        if 0 <= j < past.len() {
            assert(!is_destroy_encoder(past[j], h));
        }
    }
    backend::law_stays_live::<AmfEncoderState, AmfState>(after, past, h);
}

/// What [`amf_op::CREATE_ENCODER`] hands out can be used for
/// [`amf_op::ENCODE_FRAME`], whatever calls come between that do not take it away.
pub proof fn law_create_encoder_then_encode_frame(
    s: AmfState,
    make: Call,
    past: Seq<Call>,
    call: Call,
)
    requires
        s.ok(),
        s.encoders.free.len() > 0 || s.encoders.slots.len() < 0x1_0000_0000,
        make.opcode == amf_op::CREATE_ENCODER,
        amf::CreateEncoderRequest::parse(make.body) is Ok,
        call.opcode == amf_op::ENCODE_FRAME,
        amf::EncodeFrameRequest::parse(call.body) matches Ok(req) && handles::same_object(
            req.encoder,
            s.encoders.next_handle(KIND_AMF_ENCODER),
        ),
        forall|j: int| 0 <= j < past.len() ==> !is_destroy_encoder(
            #[trigger] past[j],
            s.encoders.next_handle(KIND_AMF_ENCODER),
        ),
    ensures
        s.step(make).1 == Answer::Ok(
            (amf::CreateEncoderResponse {
                encoder: s.encoders.next_handle(KIND_AMF_ENCODER),
            }).bytes(),
        ),
        backend::run_answer(s.step(make).0, past, call) == Answer::Ok(
            (amf::EncodeFrameResponse {
                packet_len: amf::EncodeFrameRequest::parse(call.body)->Ok_0.frame_len,
            }).bytes(),
        ),
{
    let req = amf::CreateEncoderRequest::parse(make.body)->Ok_0;
    handles::law_insert_resolves(
        s.encoders,
        KIND_AMF_ENCODER,
        AmfEncoderState { codec: req.codec, width: req.width, height: req.height, frames: 0 },
    );
    let h = s.encoders.next_handle(KIND_AMF_ENCODER);
    let after = s.step(make).0;
    s.law_step_keeps(make);
    backend::law_answer_of_state(after, past, call);
    assert forall|j: int| !(#[trigger] backend::takes::<AmfEncoderState, AmfState>(
        after,
        past,
        j,
        h,
    )) by {
        if 0 <= j < past.len() {
            assert(!is_destroy_encoder(past[j], h));
        }
    }
    backend::law_stays_live::<AmfEncoderState, AmfState>(after, past, h);
}

/// What a [`amf_op::DESTROY_ENCODER`] has taken away stays away: a call that names
/// the same object is refused afterwards, whatever calls come between.
pub proof fn law_destroy_encoder_is_final(
    s: AmfState,
    h: proto::Handle,
    past: Seq<Call>,
    call: Call,
    again: Call,
)
    requires
        s.ok(),
        s.encoders.lookup(h) is Some,
        is_destroy_encoder(call, h),
        is_destroy_encoder(again, h),
    ensures
        s.step(call).1 == Answer::Ok(seq![]),
        backend::run_answer(s.step(call).0, past, again)
            == Answer::Err(proto::ProtocolError::UnknownOpcode(again.opcode)),
{
    s.law_step_keeps(call);
    backend::law_answer_of_state(s.step(call).0, past, again);
    backend::law_gone_stays_gone::<AmfEncoderState, AmfState>(s.step(call).0, past, h);
}

/// Whether `call` is a [`amf_op::ENCODE_FRAME`] that names the object of `h`.
pub open spec fn is_encode_frame(call: Call, h: proto::Handle) -> bool {
    &&& call.opcode == amf_op::ENCODE_FRAME
    &&& amf::EncodeFrameRequest::parse(call.body) matches Ok(req)
    &&& handles::same_object(req.encoder, h)
}

/// How many calls of a run are frames for the object of `h`.
pub open spec fn frames_for(past: Seq<Call>, h: proto::Handle) -> nat
    decreases past.len(),
{
    if past.len() == 0 {
        0
    } else if is_encode_frame(past[0], h) {
        1 + frames_for(past.skip(1), h)
    } else {
        frames_for(past.skip(1), h)
    }
}

/// The frame counter `n` frames after it stood at `frames`; it stays at its
/// maximum.
pub open spec fn counted(frames: u32, n: nat) -> u32 {
    if frames + n < u32::MAX {
        (frames + n) as u32
    } else {
        u32::MAX
    }
}

/// The counter of a live encoder moves on by one for each of its own frames, and
/// for nothing else: not for the frames of other encoders, not for calls that are
/// refused. Every frame is answered.
pub proof fn law_frames_counted(s: AmfState, h: proto::Handle, past: Seq<Call>, call: Call)
    requires
        s.ok(),
        s.encoders.lookup(h) is Some,
        forall|j: int| 0 <= j < past.len() ==> !is_destroy_encoder(#[trigger] past[j], h),
        is_encode_frame(call, h),
    ensures
        ({
            let state = s.encoders.lookup(h)->0;
            let frames = counted(state.frames, frames_for(past, h));
            &&& backend::run_state(s, past).encoders.lookup(h) == Some(
                AmfEncoderState { frames, ..state },
            )
            &&& backend::run_answer(s, past, call) == Answer::Ok(
                (amf::EncodeFrameResponse {
                    packet_len: amf::EncodeFrameRequest::parse(call.body)->Ok_0.frame_len,
                }).bytes(),
            )
        }),
    decreases past.len(),
{
    if past.len() > 0 {
        let next = s.step(past[0]).0;
        s.law_step_keeps(past[0]);
        <AmfState as Keeps<AmfEncoderState>>::law_call_is_op(s, past[0]);
        assert(!is_destroy_encoder(past[0], h));
        if past[0].opcode == amf_op::CREATE_ENCODER {
            if let Ok(req) = amf::CreateEncoderRequest::parse(past[0].body) {
                handles::law_insert_keeps_others(
                    s.encoders,
                    0,
                    AmfEncoderState {
                        codec: req.codec,
                        width: req.width,
                        height: req.height,
                        frames: 0,
                    },
                    h,
                );
            }
        }
        assert forall|j: int| 0 <= j < past.skip(1).len() implies !is_destroy_encoder(
            #[trigger] past.skip(1)[j],
            h,
        ) by {
            assert(past.skip(1)[j] == past[j + 1]);
        }
        law_frames_counted(next, h, past.skip(1), call);
    }
}

/// A new encoder counts its frames from zero, whatever became of an earlier one in
/// its slot.
pub proof fn law_frames_count_from_zero(
    s: AmfState,
    make: Call,
    past: Seq<Call>,
    call: Call,
)
    requires
        s.ok(),
        s.encoders.free.len() > 0 || s.encoders.slots.len() < 0x1_0000_0000,
        make.opcode == amf_op::CREATE_ENCODER,
        amf::CreateEncoderRequest::parse(make.body) is Ok,
        forall|j: int| 0 <= j < past.len() ==> !is_destroy_encoder(
            #[trigger] past[j],
            s.encoders.next_handle(KIND_AMF_ENCODER),
        ),
        is_encode_frame(call, s.encoders.next_handle(KIND_AMF_ENCODER)),
    ensures
        ({
            let h = s.encoders.next_handle(KIND_AMF_ENCODER);
            let frames = counted(0, frames_for(past, h));
            &&& backend::run_state(s.step(make).0, past).encoders.lookup(h) matches Some(state)
            &&& state.frames == frames
        }),
{
    let req = amf::CreateEncoderRequest::parse(make.body)->Ok_0;
    handles::law_insert_resolves(
        s.encoders,
        KIND_AMF_ENCODER,
        AmfEncoderState {
            codec: req.codec,
            width: req.width,
            height: req.height,
            frames: 0,
        },
    );
    s.law_step_keeps(make);
    law_frames_counted(s.step(make).0, s.encoders.next_handle(KIND_AMF_ENCODER), past, call);
}

/// A frame moves the counter of its own encoder on by one and leaves every other
/// encoder as it was.
pub proof fn law_frame_counts(s: AmfState, h: proto::Handle, other: proto::Handle, call: Call)
    requires
        s.encoders.lookup(h) is Some,
        other.spec_slot() != h.spec_slot(),
        call.opcode == amf_op::ENCODE_FRAME,
        amf::EncodeFrameRequest::parse(call.body) matches Ok(req) && req.encoder == h,
    ensures
        s.step(call).0.encoders.lookup(h) == Some(
            AmfEncoderState {
                frames: next_frame(s.encoders.lookup(h)->0.frames),
                ..s.encoders.lookup(h)->0
            },
        ),
        s.step(call).0.encoders.lookup(other) == s.encoders.lookup(other),
{
}

/// The packet length answered for a frame is the length of the frame.
pub proof fn law_packet_echoes_frame(s: AmfState, call: Call)
    requires
        call.opcode == amf_op::ENCODE_FRAME,
        amf::EncodeFrameRequest::parse(call.body) matches Ok(req) && s.encoders.lookup(
            req.encoder,
        ) is Some,
    ensures
        s.step(call).1 == Ok::<Seq<u8>, proto::ProtocolError>(
            (amf::EncodeFrameResponse {
                packet_len: amf::EncodeFrameRequest::parse(call.body)->Ok_0.frame_len,
            }).bytes(),
        ),
{
}

/// A [`amf_op::CREATE_ENCODER`] is always answered, whatever calls came before and
/// whatever bytes follow the request, with a handle of its kind. As long as a slot
/// index is left, the handle names an encoder that was not there before and that
/// holds what was asked for; nothing else changes.
pub proof fn law_create_encoder_answered(
    s: AmfState,
    req: amf::CreateEncoderRequest,
    rest: Seq<u8>,
    req_id: u32,
) -> (h: proto::Handle)
    ensures
        ({
            let call = Call { opcode: amf_op::CREATE_ENCODER, req_id, body: req.bytes() + rest };
            let (after, answer) = s.step(call);
            &&& answer == Answer::Ok((amf::CreateEncoderResponse { encoder: h }).bytes())
            &&& h.spec_kind() == KIND_AMF_ENCODER
            &&& s.ok() && (s.encoders.free.len() > 0 || s.encoders.slots.len()
                < 0x1_0000_0000) ==> {
                &&& s.encoders.lookup(h) is None
                &&& after.encoders.lookup(h) == Some(
                    AmfEncoderState {
                        codec: req.codec,
                        width: req.width,
                        height: req.height,
                        frames: 0,
                    },
                )
                &&& forall|g: proto::Handle|
                    !handles::same_object(g, h) ==> #[trigger] after.encoders.lookup(g)
                        == s.encoders.lookup(g)
            }
        }),
{
    req.law_round_trip(rest);
    handles::law_insert_issues(
        s.encoders,
        KIND_AMF_ENCODER,
        AmfEncoderState { codec: req.codec, width: req.width, height: req.height, frames: 0 },
    );
    s.encoders.next_handle(KIND_AMF_ENCODER)
}

/// A [`amf_op::DESTROY_ENCODER`] takes away the encoder it names, and nothing else,
/// and is acknowledged with an empty body; where there is no such encoder it is
/// refused by its opcode and nothing changes. What follows the request plays no
/// part.
pub proof fn law_destroy_encoder_takes_one(
    s: AmfState,
    req: amf::DestroyEncoderRequest,
    rest: Seq<u8>,
    req_id: u32,
)
    ensures
        ({
            let call = Call { opcode: amf_op::DESTROY_ENCODER, req_id, body: req.bytes() + rest };
            let (after, answer) = s.step(call);
            &&& s.encoders.lookup(req.encoder) is Some ==> {
                &&& answer == Answer::Ok(seq![])
                &&& forall|g: proto::Handle|
                    handles::same_object(g, req.encoder) ==> #[trigger] after.encoders.lookup(
                        g,
                    ) is None
            }
            &&& s.encoders.lookup(req.encoder) is None ==> {
                &&& answer == Answer::Err(
                    proto::ProtocolError::UnknownOpcode(amf_op::DESTROY_ENCODER),
                )
                &&& after == s
            }
            &&& forall|g: proto::Handle|
                !handles::same_object(g, req.encoder) ==> #[trigger] after.encoders.lookup(g)
                    == s.encoders.lookup(g)
        }),
{
    req.law_round_trip(rest);
    handles::law_remove_takes_one(s.encoders, req.encoder);
}

/// A [`amf_op::ENCODE_FRAME`] for a live encoder is answered with the length of the
/// frame, and moves the counter of that encoder on by one until it is full; nothing
/// else changes. For any other encoder it is refused by its opcode.
pub proof fn law_encode_frame_answered(
    s: AmfState,
    req: amf::EncodeFrameRequest,
    rest: Seq<u8>,
    req_id: u32,
)
    requires
        s.ok(),
    ensures
        ({
            let call = Call { opcode: amf_op::ENCODE_FRAME, req_id, body: req.bytes() + rest };
            let (after, answer) = s.step(call);
            match s.encoders.lookup(req.encoder) {
                Some(state) => {
                    &&& answer == Answer::Ok(
                        (amf::EncodeFrameResponse { packet_len: req.frame_len }).bytes(),
                    )
                    &&& forall|g: proto::Handle|
                        handles::same_object(g, req.encoder) ==> (#[trigger] after.encoders.lookup(
                            g,
                        ) matches Some(now) && now.frames == if state.frames == u32::MAX {
                            u32::MAX as int
                        } else {
                            state.frames + 1
                        } && now.codec == state.codec && now.width == state.width && now.height
                            == state.height)
                    &&& forall|g: proto::Handle|
                        !handles::same_object(g, req.encoder) ==> #[trigger] after.encoders.lookup(
                            g,
                        ) == s.encoders.lookup(g)
                },
                None => {
                    &&& after == s
                    &&& answer == Answer::Err(
                        proto::ProtocolError::UnknownOpcode(amf_op::ENCODE_FRAME),
                    )
                },
            }
        }),
{
    req.law_round_trip(rest);
    if let Some(state) = s.encoders.lookup(req.encoder) {
        handles::law_update_changes_one(
            s.encoders,
            req.encoder,
            AmfEncoderState { frames: next_frame(state.frames), ..state },
        );
    }
}

/// A call whose body is too short for its request is refused as an unexpected end,
/// and changes nothing.
pub proof fn law_short_bodies_refused(s: AmfState, call: Call)
    requires
        ({
            ||| call.opcode == amf_op::CREATE_ENCODER && call.body.len() < 12
            ||| call.opcode == amf_op::DESTROY_ENCODER && call.body.len() < 8
            ||| call.opcode == amf_op::ENCODE_FRAME && call.body.len() < 12
        }),
    ensures
        s.step(call) == (s, Answer::Err(proto::ProtocolError::UnexpectedEof)),
{
}

/// Only calls of the backend's own namespace are answered. Every other opcode, of
/// the namespace or not, is refused by that opcode, whatever its body holds, and
/// changes nothing.
pub proof fn law_other_calls_refused(s: AmfState, call: Call)
    ensures
        s.step(call).1 is Ok ==> call.opcode / 0x100_0000 == proto::ApiId::Amf.byte(),
        ({
            &&& call.opcode != amf_op::CREATE_ENCODER
            &&& call.opcode != amf_op::DESTROY_ENCODER
            &&& call.opcode != amf_op::ENCODE_FRAME
        }) ==> s.step(call) == (
            s,
            Answer::Err(proto::ProtocolError::UnknownOpcode(call.opcode)),
        ),
{
}

/// A new backend serves the namespace of its API, and holds nothing that a handle
/// resolves to.
pub proof fn law_new_backend(
    backend: AmfBackend,
    reader: &AmfBackend,
    api: proto::ApiId,
    h: proto::Handle,
)
    requires
        call_ensures(AmfBackend::new, (), backend),
        call_ensures(<AmfBackend as Backend>::api, (reader,), api),
    ensures
        api == proto::ApiId::Amf,
        api.byte() == 11,
        backend.inv(),
        backend@.encoders.lookup(h) is None,
{
}

} // verus!
