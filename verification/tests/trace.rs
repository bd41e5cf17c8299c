//! Frame traces.
use std::cell::RefCell;
use std::collections::VecDeque;
use std::rc::Rc;

use graftx::protocol::{encode_frame, FrameHeader, FrameKind, PROTOCOL_MAJOR};
use graftx::trace::{is_request, replay, FrameTrace, RecordingTransport};

/// The frames under way to one end of a pair.
type Queue = Rc<RefCell<VecDeque<Vec<u8>>>>;

/// One end of a pair of queues. A send fails once the other end is gone, and so
/// does a receive with nothing left to read.
struct End {
    inbox: Queue,
    outbox: Queue,
}

#[derive(Debug, PartialEq)]
struct Closed;

impl End {
    fn send(&mut self, frame: &[u8]) -> Result<(), Closed> {
        if Rc::strong_count(&self.outbox) < 2 {
            return Err(Closed);
        }
        self.outbox.borrow_mut().push_back(frame.to_vec());
        Ok(())
    }

    fn recv(&mut self) -> Result<Vec<u8>, Closed> {
        self.inbox.borrow_mut().pop_front().ok_or(Closed)
    }
}

/// Two ends, each of which reads what the other sends.
fn loopback() -> (End, End) {
    let (left, right): (Queue, Queue) = (Queue::default(), Queue::default());
    let a = End { inbox: Rc::clone(&left), outbox: Rc::clone(&right) };
    (a, End { inbox: right, outbox: left })
}

/// Send through the wrapped transport, and record what was sent.
fn send_recorded(rec: &mut RecordingTransport<End>, frame: &[u8]) -> Result<(), Closed> {
    let outcome = rec.inner.send(frame);
    rec.sent(frame, outcome)
}

/// Receive from the wrapped transport, and record what arrived.
fn recv_recorded(rec: &mut RecordingTransport<End>) -> Result<Vec<u8>, Closed> {
    let outcome = rec.inner.recv();
    rec.received(outcome)
}

/// Send the frames that a replay of `trace` is made of.
fn replay_over(end: &mut End, trace: &FrameTrace) -> Result<(), Closed> {
    for frame in replay(trace) {
        end.send(frame)?;
    }
    Ok(())
}

/// Build a wire frame with the given kind and request id over an empty body.
fn frame(kind: FrameKind, req_id: u32) -> Vec<u8> {
    let header = FrameHeader {
        version: PROTOCOL_MAJOR,
        flags: 0,
        kind,
        opcode: 0x01_00_00_01,
        req_id,
        seq: u64::from(req_id),
        body_len: 0,
    };
    encode_frame(&header, &[])
}

#[test]
fn new_trace_is_empty() {
    let trace = FrameTrace::new();
    assert!(trace.is_empty());
    assert_eq!(trace.len(), 0);
    assert_eq!(trace.iter().len(), 0);
}

#[test]
fn record_appends_in_order() {
    let mut trace = FrameTrace::new();
    trace.record(b"first");
    trace.record(b"second");
    trace.record(b"third");

    assert_eq!(trace.len(), 3);
    assert!(!trace.is_empty());
    let collected: Vec<&[u8]> = trace.iter();
    assert_eq!(collected, vec![&b"first"[..], b"second", b"third"]);
}

#[test]
fn recording_transport_captures_both_directions() {
    let (a, mut b) = loopback();
    let mut rec = RecordingTransport::new(a);

    send_recorded(&mut rec, b"req-1").expect("send req-1");
    send_recorded(&mut rec, b"req-2").expect("send req-2");
    // Peer answers; the reply flows back through the recorder on recv.
    b.send(b"resp-1").expect("peer send");
    assert_eq!(recv_recorded(&mut rec).expect("recv resp-1"), b"resp-1");
    assert_eq!(b.recv().expect("peer recv req-1"), b"req-1");
    assert_eq!(b.recv().expect("peer recv req-2"), b"req-2");

    let captured: Vec<&[u8]> = rec.trace().iter();
    assert_eq!(captured, vec![&b"req-1"[..], b"req-2", b"resp-1"]);
}

#[test]
fn failed_send_leaves_trace_untouched() {
    let (a, b) = loopback();
    // Dropping the peer makes every subsequent send fail.
    drop(b);
    let mut rec = RecordingTransport::new(a);

    assert!(send_recorded(&mut rec, b"unreachable").is_err());
    assert!(rec.trace().is_empty());
}

#[test]
fn into_parts_recovers_inner_and_trace() {
    let (a, mut b) = loopback();
    let mut rec = RecordingTransport::new(a);
    send_recorded(&mut rec, b"hi").expect("send hi");

    let (mut inner, trace) = rec.into_parts();
    assert_eq!(trace.len(), 1);
    // The recovered inner transport still works.
    inner.send(b"direct").expect("send via inner");
    assert_eq!(b.recv().expect("recv first"), b"hi");
    assert_eq!(b.recv().expect("recv second"), b"direct");
}

#[test]
fn replay_resends_only_request_frames() {
    // Capture a mixed trace: two requests interleaved with a response.
    let mut trace = FrameTrace::new();
    let req_a = frame(FrameKind::Request, 1);
    let resp = frame(FrameKind::Response, 1);
    let req_b = frame(FrameKind::Request, 2);
    trace.record(&req_a);
    trace.record(&resp);
    trace.record(&req_b);

    let (mut client, mut server) = loopback();
    replay_over(&mut client, &trace).expect("replay");
    drop(client);

    // Only the two request frames are re-sent, in order.
    assert_eq!(server.recv().expect("recv req_a"), req_a);
    assert_eq!(server.recv().expect("recv req_b"), req_b);
    assert!(server.recv().is_err(), "no further frames after requests");
}

#[test]
fn replay_skips_undecodable_frames() {
    let mut trace = FrameTrace::new();
    // Too short to hold a header: must be skipped, not sent.
    trace.record(b"junk");
    let req = frame(FrameKind::Request, 7);
    trace.record(&req);

    let (mut client, mut server) = loopback();
    replay_over(&mut client, &trace).expect("replay");
    drop(client);

    assert_eq!(server.recv().expect("recv req"), req);
    assert!(server.recv().is_err(), "junk frame was not sent");
}

#[test]
fn record_then_replay_round_trips_over_loopback() {
    // Record requests as they pass through a recorder, then replay the
    // captured trace against a fresh transport and confirm it arrives.
    let (a, mut peer) = loopback();
    let mut rec = RecordingTransport::new(a);
    let req = frame(FrameKind::Request, 42);
    send_recorded(&mut rec, &req).expect("send req");
    assert_eq!(peer.recv().expect("peer recv"), req);

    let trace = rec.into_trace();
    let (mut client, mut server) = loopback();
    replay_over(&mut client, &trace).expect("replay");
    drop(client);
    assert_eq!(server.recv().expect("replayed recv"), req);
}

#[test]
fn replay_empty_trace_sends_nothing() {
    let trace = FrameTrace::new();
    let (mut client, mut server) = loopback();
    replay_over(&mut client, &trace).expect("replay empty");
    drop(client);
    assert!(server.recv().is_err());
}

#[test]
fn replay_propagates_send_error() {
    let mut trace = FrameTrace::new();
    trace.record(&frame(FrameKind::Request, 1));
    let (mut client, server) = loopback();
    // Drop the peer so the send fails.
    drop(server);
    assert!(replay_over(&mut client, &trace).is_err());
}

#[test]
fn failed_receive_leaves_trace_untouched() {
    let (a, _b) = loopback();
    let mut rec = RecordingTransport::new(a);
    assert_eq!(recv_recorded(&mut rec), Err(Closed));
    assert!(rec.trace().is_empty());
}

#[test]
fn only_request_frames_are_requests() {
    assert!(is_request(&frame(FrameKind::Request, 1)));
    assert!(!is_request(&frame(FrameKind::Response, 1)));
    assert!(!is_request(b"junk"));
    assert!(!is_request(&[]));
}

#[test]
fn replay_of_replayed_frames_is_the_same() {
    let mut trace = FrameTrace::new();
    trace.record(&frame(FrameKind::Request, 1));
    trace.record(b"junk");
    trace.record(&frame(FrameKind::Event, 2));
    trace.record(&frame(FrameKind::Request, 3));
    let mut again = FrameTrace::new();
    for f in replay(&trace) {
        again.record(f);
    }
    assert_eq!(again.len(), 2);
    assert_eq!(replay(&again), replay(&trace));
}
