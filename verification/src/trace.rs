//! GraftX frame trace.
//!
//! Captures the protocol frames that pass over a transport and replays the
//! recorded requests against another one. Wrap a live transport in a
//! [`RecordingTransport`] to tee every send and receive into a [`FrameTrace`];
//! later feed that trace to [`replay`] for the request frames to re-issue
//! against a fresh transport.
//!
//! A trace stores frames verbatim as their on-the-wire bytes, so a recording
//! is independent of the backend it came from. Direction is recovered from the
//! protocol [`FrameHeader`](crate::protocol::FrameHeader): replay re-sends only
//! the frames whose header kind is [`FrameKind::Request`], since responses and
//! events originate at the peer.
use vstd::prelude::*;

use crate::protocol as proto;
use crate::protocol::FrameKind;

verus! {

/// An ordered log of protocol frames captured from a transport.
///
/// Frames are stored as their raw wire bytes in the order they were recorded.
/// The trace does not interpret them beyond what [`replay`] needs to tell a
/// request from a reply, so a malformed or truncated frame is still retained
/// faithfully and simply skipped at replay time.
#[derive(Debug, Clone, PartialEq, Eq)]
pub struct FrameTrace {
    frames: Vec<Vec<u8>>,
}

/// The bytes of some frames.
pub open spec fn frame_views(frames: Seq<Vec<u8>>) -> Seq<Seq<u8>> {
    Seq::new(frames.len(), |i: int| frames[i]@)
}

/// The bytes of some borrowed frames.
pub open spec fn slice_views(frames: Seq<&[u8]>) -> Seq<Seq<u8>> {
    Seq::new(frames.len(), |i: int| frames[i]@)
}

impl View for FrameTrace {
    type V = Seq<Seq<u8>>;

    /// The recorded frames in capture order.
    closed spec fn view(&self) -> Seq<Seq<u8>> {
        frame_views(self.frames@)
    }
}

impl FrameTrace {
    /// Create an empty trace.
    pub fn new() -> (trace: Self)
        ensures
            trace@ == Seq::<Seq<u8>>::empty(),
    {
        let trace = Self { frames: Vec::new() };
        assert(trace@ =~= Seq::<Seq<u8>>::empty());
        trace
    }

    /// Append a copy of `frame` to the end of the trace.
    pub fn record(&mut self, frame: &[u8])
        ensures
            final(self)@ == old(self)@.push(frame@),
    {
        let mut copy: Vec<u8> = Vec::new();
        copy.extend_from_slice(frame);
        assert(copy@ =~= frame@);
        self.frames.push(copy);
        assert(self@ =~= old(self)@.push(frame@));
    }

    /// Number of frames recorded so far.
    pub fn len(&self) -> (n: usize)
        ensures
            n == self@.len(),
    {
        self.frames.len()
    }

    /// Whether the trace holds no frames.
    pub fn is_empty(&self) -> (b: bool)
        ensures
            b <==> self@.len() == 0,
    {
        self.frames.len() == 0
    }

    /// The recorded frames in capture order.
    pub fn iter(&self) -> (frames: Vec<&[u8]>)
        ensures
            slice_views(frames@) == self@,
    {
        let mut frames: Vec<&[u8]> = Vec::new();
        let mut i: usize = 0;
        while i < self.frames.len()
            invariant
                i <= self.frames@.len(),
                slice_views(frames@) == self@.take(i as int),
                self@.len() == self.frames@.len(),
            decreases self.frames.len() - i,
        {
            let ghost before = slice_views(frames@);
            let frame: &[u8] = self.frames[i].as_slice();
            frames.push(frame);
            assert(slice_views(frames@) =~= before.push(frame@));
            i = i + 1;
            assert(before.push(frame@) =~= self@.take(i as int));
        }
        assert(self@.take(i as int) =~= self@);
        frames
    }
}

impl Default for FrameTrace {
    fn default() -> (trace: Self)
        ensures
            trace@ == Seq::<Seq<u8>>::empty(),
    {
        Self::new()
    }
}

/// What an operation of a transport makes of the trace: the frame that passed
/// stands at its end, if one did.
pub open spec fn teed(
    before: Seq<Seq<u8>>,
    after: Seq<Seq<u8>>,
    passed: Option<Seq<u8>>,
) -> bool {
    after == match passed {
        Some(frame) => before.push(frame),
        None => before,
    }
}

/// A transport whose frames are teed into a [`FrameTrace`].
///
/// Construct with [`new`](RecordingTransport::new). Whoever drives the inner
/// transport reports what came of each operation with
/// [`sent`](RecordingTransport::sent) and
/// [`received`](RecordingTransport::received); a frame is recorded only when the
/// operation succeeded, so a failed one leaves the trace untouched. Both
/// directions append to the same trace in the order calls happen. Recover the
/// captured trace with [`into_trace`](RecordingTransport::into_trace) or borrow
/// it live with [`trace`](RecordingTransport::trace).
pub struct RecordingTransport<T> {
    /// The wrapped transport.
    pub inner: T,
    /// The frames captured so far.
    pub trace: FrameTrace,
}

impl<T> RecordingTransport<T> {
    /// Wrap a transport with a fresh, empty trace.
    pub fn new(inner: T) -> (rec: Self)
        ensures
            rec.inner == inner,
            rec.trace@ == Seq::<Seq<u8>>::empty(),
    {
        Self { inner, trace: FrameTrace::new() }
    }

    /// Borrow the trace captured so far.
    pub fn trace(&self) -> (trace: &FrameTrace)
        ensures
            *trace == self.trace,
    {
        &self.trace
    }

    /// Consume the wrapper and return the captured trace, dropping the inner
    /// transport.
    pub fn into_trace(self) -> (trace: FrameTrace)
        ensures
            trace == self.trace,
    {
        self.trace
    }

    /// Consume the wrapper and return the inner transport and its trace.
    pub fn into_parts(self) -> (parts: (T, FrameTrace))
        ensures
            parts == (self.inner, self.trace),
    {
        (self.inner, self.trace)
    }

    /// Take note of what came of sending `frame` over the inner transport, and
    /// pass it on.
    pub fn sent<E>(&mut self, frame: &[u8], outcome: Result<(), E>) -> (r: Result<(), E>)
        ensures
            r == outcome,
            final(self).inner == old(self).inner,
            teed(
                old(self).trace@,
                final(self).trace@,
                if outcome is Ok {
                    Some(frame@)
                } else {
                    None
                },
            ),
    {
        if outcome.is_ok() {
            self.trace.record(frame);
        }
        outcome
    }

    /// Take note of what came of receiving from the inner transport, and pass it
    /// on.
    pub fn received<E>(&mut self, outcome: Result<Vec<u8>, E>) -> (r: Result<Vec<u8>, E>)
        ensures
            r == outcome,
            final(self).inner == old(self).inner,
            teed(
                old(self).trace@,
                final(self).trace@,
                match outcome {
                    Ok(frame) => Some(frame@),
                    Err(_) => None,
                },
            ),
    {
        match &outcome {
            Ok(frame) => {
                self.trace.record(frame.as_slice());
            },
            Err(_) => {},
        }
        outcome
    }
}

/// Whether `frame` decodes to a request-kind protocol frame.
pub open spec fn is_request_frame(frame: Seq<u8>) -> bool {
    proto::frame::parse_frame(frame) matches Ok((header, _)) && header.kind == FrameKind::Request
}

/// The request frames among `frames`, in their order.
pub open spec fn requests_of(frames: Seq<Seq<u8>>) -> Seq<Seq<u8>>
    decreases frames.len(),
{
    if frames.len() == 0 {
        seq![]
    } else if is_request_frame(frames.last()) {
        requests_of(frames.drop_last()).push(frames.last())
    } else {
        requests_of(frames.drop_last())
    }
}

/// Whether `frame` decodes to a request-kind protocol frame.
pub fn is_request(frame: &[u8]) -> (b: bool)
    ensures
        b == is_request_frame(frame@),
{
    match proto::decode_frame(frame) {
        Ok((header, _)) => header.kind == FrameKind::Request,
        Err(_) => false,
    }
}

/// Every recorded request frame in `trace`, in capture order: what a replay
/// re-sends.
///
/// A frame counts as a request when its protocol header decodes and reports kind
/// [`FrameKind::Request`]; responses, events, and any frame whose header cannot
/// be decoded are skipped, since only the client's requests should be reissued.
/// Replay sends but does not read: it never waits for a reply, and the first
/// failing send ends it.
pub fn replay(trace: &FrameTrace) -> (frames: Vec<&[u8]>)
    ensures
        slice_views(frames@) == requests_of(trace@),
{
    let all = trace.iter();
    let ghost views = trace@;
    let mut frames: Vec<&[u8]> = Vec::new();
    let mut i: usize = 0;
    assert(slice_views(frames@) =~= requests_of(views.take(0)));
    while i < all.len()
        invariant
            i <= all@.len(),
            slice_views(all@) == views,
            views.len() == all@.len(),
            slice_views(frames@) == requests_of(views.take(i as int)),
        decreases all.len() - i,
    {
        let frame: &[u8] = all[i];
        let ghost before = slice_views(frames@);
        assert(views[i as int] == frame@);
        assert(views.take(i + 1).drop_last() =~= views.take(i as int));
        assert(views.take(i + 1).last() == frame@);
        if is_request(frame) {
            frames.push(frame);
            assert(slice_views(frames@) =~= before.push(frame@));
        }
        i = i + 1;
    }
    assert(views.take(i as int) =~= views);
    frames
}

/// Replaying two traces one after the other re-sends what replaying them joined
/// re-sends.
pub proof fn law_replay_joins(a: Seq<Seq<u8>>, b: Seq<Seq<u8>>)
    ensures
        requests_of(a + b) == requests_of(a) + requests_of(b),
    decreases b.len(),
{
    if b.len() == 0 {
        assert(a + b =~= a);
        assert(requests_of(a) + requests_of(b) =~= requests_of(a));
    } else {
        law_replay_joins(a, b.drop_last());
        assert((a + b).drop_last() =~= a + b.drop_last());
        assert((a + b).last() == b.last());
        assert(requests_of(a + b) =~= requests_of(a) + requests_of(b));
    }
}

/// A replay re-sends request frames only, and a replay of its own recording
/// re-sends the same frames.
pub proof fn law_replay_settles(frames: Seq<Seq<u8>>)
    ensures
        forall|i: int|
            0 <= i < requests_of(frames).len() ==> is_request_frame(
                #[trigger] requests_of(frames)[i],
            ),
        requests_of(requests_of(frames)) == requests_of(frames),
    decreases frames.len(),
{
    if frames.len() > 0 {
        law_replay_settles(frames.drop_last());
        let front = requests_of(frames.drop_last());
        if is_request_frame(frames.last()) {
            assert(requests_of(frames).drop_last() =~= front);
            assert forall|i: int| 0 <= i < requests_of(frames).len() implies is_request_frame(
                #[trigger] requests_of(frames)[i],
            ) by {
                if i < front.len() {
                    assert(requests_of(frames)[i] == front[i]);
                }
            }
        }
    }
}

/// Recording a request and replaying the trace re-sends that request, after the
/// ones recorded before it.
pub proof fn law_recorded_request_replays(frames: Seq<Seq<u8>>, frame: Seq<u8>)
    requires
        is_request_frame(frame),
    ensures
        requests_of(frames.push(frame)) == requests_of(frames).push(frame),
{
    assert(frames.push(frame).drop_last() =~= frames);
}

/// A frame counts as a request by its kind alone: whatever else its header says,
/// and whatever body follows, an encoded frame is a request frame if and only if
/// its kind is [`FrameKind::Request`].
pub proof fn law_request_by_kind(header: proto::FrameHeader, body: Seq<u8>)
    ensures
        is_request_frame(proto::frame::frame_bytes(header, body)) <==> header.kind
            == FrameKind::Request,
{
    proto::frame::law_frame_round_trip(header, body);
}

/// Wherever an encoded frame stands in a trace, a replay re-sends it in its place
/// if its kind is [`FrameKind::Request`], and passes over it if it is a response
/// or an event. Nothing else in its header and nothing in its body plays a part.
pub proof fn law_replay_by_kind(
    earlier: Seq<Seq<u8>>,
    header: proto::FrameHeader,
    body: Seq<u8>,
    later: Seq<Seq<u8>>,
)
    ensures
        requests_of(seq![]) == Seq::<Seq<u8>>::empty(),
        header.kind == FrameKind::Request ==> requests_of(
            earlier.push(proto::frame::frame_bytes(header, body)) + later,
        ) == requests_of(earlier).push(proto::frame::frame_bytes(header, body)) + requests_of(
            later,
        ),
        header.kind == FrameKind::Response || header.kind == FrameKind::Event ==> requests_of(
            earlier.push(proto::frame::frame_bytes(header, body)) + later,
        ) == requests_of(earlier) + requests_of(later),
{
    let frame = proto::frame::frame_bytes(header, body);
    law_request_by_kind(header, body);
    law_replay_joins(earlier.push(frame), later);
    assert(earlier.push(frame).drop_last() =~= earlier);
    assert(earlier.push(frame).last() == frame);
}

/// A replay passes over what is no frame: what is shorter than a header, or
/// carries a kind that is none.
pub proof fn law_replay_skips_garbled(
    earlier: Seq<Seq<u8>>,
    garbled: Seq<u8>,
    later: Seq<Seq<u8>>,
)
    requires
        garbled.len() < 28 || proto::bytes::u16_at(garbled, 4) > 2,
    ensures
        requests_of(earlier.push(garbled) + later) == requests_of(earlier) + requests_of(later),
{
    law_replay_joins(earlier.push(garbled), later);
    assert(earlier.push(garbled).drop_last() =~= earlier);
    assert(earlier.push(garbled).last() == garbled);
}

/// What a replay re-sends are frames of the trace, in the order in which they were
/// recorded: each stands later in the trace than the one before it.
pub proof fn law_replay_keeps_order(frames: Seq<Seq<u8>>) -> (places: Seq<int>)
    ensures
        places.len() == requests_of(frames).len(),
        forall|i: int|
            0 <= i < places.len() ==> {
                &&& 0 <= #[trigger] places[i] < frames.len()
                &&& frames[places[i]] == requests_of(frames)[i]
            },
        forall|i: int, j: int| 0 <= i < j < places.len() ==> places[i] < places[j],
    decreases frames.len(),
{
    if frames.len() == 0 {
        seq![]
    } else {
        let front = law_replay_keeps_order(frames.drop_last());
        if is_request_frame(frames.last()) {
            let places = front.push(frames.len() - 1);
            assert forall|i: int| 0 <= i < places.len() implies {
                &&& 0 <= #[trigger] places[i] < frames.len()
                &&& frames[places[i]] == requests_of(frames)[i]
            } by {
                if i < front.len() {
                    assert(places[i] == front[i]);
                }
            }
            assert forall|i: int, j: int| 0 <= i < j < places.len() implies places[i]
                < places[j] by {
                assert(places[i] == front[i]);
                if j < front.len() {
                    assert(places[j] == front[j]);
                }
            }
            places
        } else {
            assert forall|i: int| 0 <= i < front.len() implies frames[front[i]] == requests_of(
                frames,
            )[i] by {
                assert(frames.drop_last()[front[i]] == frames[front[i]]);
            }
            front
        }
    }
}

/// A replay of a trace re-sends every recorded frame of kind
/// [`FrameKind::Request`], whatever its body, and no frame of another kind.
pub proof fn law_replay_resends(
    trace: &FrameTrace,
    frames: Vec<&[u8]>,
    k: int,
    header: proto::FrameHeader,
    body: Seq<u8>,
)
    requires
        call_ensures(replay, (trace,), frames),
        0 <= k < trace@.len(),
        trace@[k] == proto::frame::frame_bytes(header, body),
    ensures
        header.kind == FrameKind::Request ==> exists|j: int|
            0 <= j < frames@.len() && (#[trigger] frames@[j])@ == trace@[k],
        header.kind != FrameKind::Request ==> forall|j: int|
            0 <= j < frames@.len() ==> (#[trigger] frames@[j])@ != trace@[k],
        frames@.len() <= trace@.len(),
{
    law_request_by_kind(header, body);
    law_replay_settles(trace@);
    let places = law_replay_keeps_order(trace@);
    lemma_rising(places, trace@.len() as int, places.len() as int);
    if header.kind == FrameKind::Request {
        let (a, b) = (trace@.take(k), trace@.skip(k + 1));
        assert(trace@ =~= a.push(trace@[k]) + b);
        law_replay_by_kind(a, header, body, b);
        let j = requests_of(a).len() as int;
        assert(requests_of(trace@)[j] == trace@[k]);
        assert(slice_views(frames@)[j] == frames@[j]@);
    } else {
        assert forall|j: int| 0 <= j < frames@.len() implies (#[trigger] frames@[j])@
            != trace@[k] by {
            assert(slice_views(frames@)[j] == frames@[j]@);
            assert(is_request_frame(requests_of(trace@)[j]));
        }
    }
}

/// Rising places below `n` are at most `n`.
proof fn lemma_rising(places: Seq<int>, n: int, m: int)
    requires
        0 <= m <= places.len(),
        forall|i: int| 0 <= i < places.len() ==> 0 <= #[trigger] places[i] < n,
        forall|i: int, j: int| 0 <= i < j < places.len() ==> places[i] < places[j],
    ensures
        m > 0 ==> places[m - 1] >= m - 1,
        m <= n || m == 0,
    decreases m,
{
    if m > 1 {
        lemma_rising(places, n, m - 1);
        assert(places[m - 2] < places[m - 1]);
    }
    if m > 0 {
        assert(places[m - 1] < n);
    }
}

/// A frame that passes over the transport is recorded once, byte for byte, behind
/// the ones before it, whichever way it went; an operation that fails records
/// nothing.
pub proof fn law_tee_appends(
    before: Seq<Seq<u8>>,
    after: Seq<Seq<u8>>,
    passed: Option<Seq<u8>>,
    i: int,
)
    requires
        teed(before, after, passed),
    ensures
        passed is None ==> after == before,
        passed matches Some(frame) ==> {
            &&& after.len() == before.len() + 1
            &&& after[before.len() as int] == frame
            &&& 0 <= i < before.len() ==> after[i] == before[i]
        },
{
}

/// A trace starts empty, grows by each frame that is recorded, byte for byte and
/// at its end, and hands its frames out in that order; its length counts them.
pub proof fn law_trace_records(
    trace: &mut FrameTrace,
    frame: &[u8],
    reader: &FrameTrace,
    new: FrameTrace,
    n: usize,
    empty: bool,
    frames: Vec<&[u8]>,
)
    ensures
        call_ensures(FrameTrace::new, (), new) ==> new@.len() == 0,
        call_ensures(FrameTrace::record, (trace, frame), ()) ==> {
            &&& final(trace)@.len() == old(trace)@.len() + 1
            &&& final(trace)@[old(trace)@.len() as int] == frame@
            &&& forall|i: int|
                0 <= i < old(trace)@.len() ==> final(trace)@[i] == #[trigger] old(trace)@[i]
        },
        call_ensures(FrameTrace::len, (reader,), n) ==> n == reader@.len(),
        call_ensures(FrameTrace::is_empty, (reader,), empty) ==> (empty <==> reader@.len() == 0),
        call_ensures(FrameTrace::iter, (reader,), frames) ==> {
            &&& frames@.len() == reader@.len()
            &&& forall|i: int| 0 <= i < frames@.len() ==> (#[trigger] frames@[i])@ == reader@[i]
        },
{
    if call_ensures(FrameTrace::iter, (reader,), frames) {
        assert forall|i: int| 0 <= i < frames@.len() implies (#[trigger] frames@[i])@
            == reader@[i] by {
            assert(slice_views(frames@)[i] == frames@[i]@);
        }
    }
}

/// A recording transport passes on what came of each operation. A frame that was
/// sent or received stands at the end of its trace afterwards, behind the ones
/// before it; an operation that failed leaves the trace as it was, and none
/// touches the wrapped transport.
pub proof fn law_recording_passes_on<T, E>(
    rec: &mut RecordingTransport<T>,
    frame: &[u8],
    outcome: Result<(), E>,
    passed: Result<(), E>,
    arrived: Result<Vec<u8>, E>,
    handed: Result<Vec<u8>, E>,
)
    ensures
        call_ensures(RecordingTransport::<T>::sent::<E>, (rec, frame, outcome), passed) ==> {
            &&& passed == outcome
            &&& final(rec).inner == old(rec).inner
            &&& outcome is Err ==> final(rec).trace@ == old(rec).trace@
            &&& outcome is Ok ==> final(rec).trace@ == old(rec).trace@.push(frame@)
        },
        call_ensures(RecordingTransport::<T>::received::<E>, (rec, arrived), handed) ==> {
            &&& handed == arrived
            &&& final(rec).inner == old(rec).inner
            &&& arrived is Err ==> final(rec).trace@ == old(rec).trace@
            &&& arrived matches Ok(got) ==> final(rec).trace@ == old(rec).trace@.push(got@)
        },
{
}

/// Wrapping a transport starts an empty trace and keeps the transport; unwrapping
/// gives back the two, and the trace can be looked at without that.
pub proof fn law_wrapping_keeps<T>(
    inner: T,
    new: RecordingTransport<T>,
    rec: RecordingTransport<T>,
    seen: &FrameTrace,
    trace: FrameTrace,
    parts: (T, FrameTrace),
)
    ensures
        call_ensures(RecordingTransport::<T>::new, (inner,), new) ==> new.inner == inner
            && new.trace@.len() == 0,
        call_ensures(RecordingTransport::<T>::trace, (&rec,), seen) ==> seen@ == rec.trace@,
        call_ensures(RecordingTransport::<T>::into_trace, (rec,), trace) ==> trace@ == rec.trace@,
        call_ensures(RecordingTransport::<T>::into_parts, (rec,), parts) ==> parts.0 == rec.inner
            && parts.1@ == rec.trace@,
{
}

} // verus!
