//! What backends answer over longer runs of calls.
use graftx::protocol as proto;
use graftx::server::{
    AmfBackend, Backend, CudaBackend, GlBackend, SyclBackend, VideoBackend,
};

/// The bytes of a request body.
fn raw(h: proto::Handle) -> Vec<u8> {
    let mut body = Vec::new();
    proto::gl::MakeCurrentRequest { context: h }.encode(&mut body);
    body
}

/// The handle that a response body of eight bytes holds.
fn handle(body: &[u8]) -> proto::Handle {
    assert_eq!(body.len(), 8);
    proto::gl::CreateContextResponse::decode(body).expect("decode handle").context
}

#[test]
fn gl_contexts_stay_usable_and_buffers_are_never_issued_twice() {
    let mut b = GlBackend::new();
    let mut contexts = Vec::new();
    let mut buffers: Vec<proto::Handle> = Vec::new();
    for _ in 0..20 {
        let c = handle(&b.handle(proto::gl_op::CREATE_CONTEXT, 1, &[]).expect("create"));
        contexts.push(c);
        for c in &contexts {
            assert_eq!(b.handle(proto::gl_op::MAKE_CURRENT, 2, &raw(*c)), Ok(Vec::new()));
            let buffer = handle(&b.handle(proto::gl_op::GEN_BUFFER, 3, &raw(*c)).expect("gen"));
            assert_eq!(buffer.kind(), 11);
            assert!(!buffers.contains(&buffer));
            buffers.push(buffer);
        }
    }
    // A context that was never created is refused, and nothing changes.
    let bogus = proto::Handle::new(10, 0, 20);
    assert_eq!(
        b.handle(proto::gl_op::GEN_BUFFER, 4, &raw(bogus)),
        Err(proto::ProtocolError::UnknownOpcode(proto::gl_op::GEN_BUFFER))
    );
    assert_eq!(b.buffers.len(), buffers.len());
}

#[test]
fn cuda_pointers_are_freed_exactly_once_each() {
    let mut b = CudaBackend::new();
    let context = handle(&b.handle(proto::cuda_op::CTX_CREATE, 1, &[0; 4]).expect("create"));
    let mut body = raw(context);
    body.extend_from_slice(&4096u64.to_le_bytes());
    let pointers: Vec<proto::Handle> = (0..5)
        .map(|_| handle(&b.handle(proto::cuda_op::MEM_ALLOC, 2, &body).expect("alloc")))
        .collect();
    assert_eq!(b.handle(proto::cuda_op::MEM_FREE, 3, &raw(pointers[2])), Ok(Vec::new()));
    // Its slot is allocated again; the old pointer stays dead.
    let again = handle(&b.handle(proto::cuda_op::MEM_ALLOC, 4, &body).expect("alloc"));
    assert_eq!(again.slot(), pointers[2].slot());
    assert_eq!(again.kind(), 21);
    let refused = Err(proto::ProtocolError::UnknownOpcode(proto::cuda_op::MEM_FREE));
    assert_eq!(b.handle(proto::cuda_op::MEM_FREE, 5, &raw(pointers[2])), refused);
    for p in [pointers[0], pointers[1], pointers[3], pointers[4], again] {
        assert_eq!(b.handle(proto::cuda_op::MEM_FREE, 6, &raw(p)), Ok(Vec::new()));
        assert_eq!(b.handle(proto::cuda_op::MEM_FREE, 7, &raw(p)), refused);
    }
}

#[test]
fn sycl_allocates_on_queues_that_were_created_and_on_no_others() {
    let mut b = SyclBackend::new();
    let allocation = |queue: proto::Handle, size: u64| {
        let mut body = raw(queue);
        body.extend_from_slice(&size.to_le_bytes());
        body
    };
    let refused = Err(proto::ProtocolError::UnknownOpcode(0x0A00_0002));
    let queue = proto::Handle::new(90, 0, 0);
    assert_eq!(b.handle(proto::sycl_op::MALLOC_DEVICE, 1, &allocation(queue, 1)), refused);
    let made = handle(&b.handle(proto::sycl_op::QUEUE_CREATE, 2, &[]).expect("create"));
    assert_eq!(made, queue);
    for (req_id, size) in [(3, 0), (4, u64::MAX)] {
        let ptr = b.handle(proto::sycl_op::MALLOC_DEVICE, req_id, &allocation(queue, size));
        assert_eq!(handle(&ptr.expect("alloc")).kind(), 91);
    }
    let stale = proto::Handle::new(90, 1, 0);
    assert_eq!(b.handle(proto::sycl_op::MALLOC_DEVICE, 5, &allocation(stale, 1)), refused);
}

/// The body of a frame for a session or an encoder.
fn frame(h: proto::Handle, len: u32) -> Vec<u8> {
    let mut body = raw(h);
    body.extend_from_slice(&len.to_le_bytes());
    body
}

#[test]
fn video_sessions_number_their_own_frames() {
    let mut b = VideoBackend::new();
    let op = proto::video_op::DECODE_FRAME;
    let create = proto::video_op::CREATE_DECODE_SESSION;
    let first = handle(&b.handle(create, 1, &[0; 12]).expect("create"));
    let second = handle(&b.handle(create, 2, &[0; 12]).expect("create"));
    for k in 0..4u32 {
        assert_eq!(b.handle(op, 3, &frame(first, k * 99)), Ok(k.to_le_bytes().to_vec()));
        // Refused calls and other sessions leave the numbering alone.
        assert!(b.handle(op, 4, &frame(proto::Handle::new(60, 9, 9), 1)).is_err());
        assert_eq!(b.handle(op, 5, &frame(second, 1)), Ok(k.to_le_bytes().to_vec()));
    }
    // A session in the slot of a destroyed one starts over.
    assert_eq!(
        b.handle(proto::video_op::DESTROY_SESSION, 6, &raw(first)),
        Ok(Vec::new())
    );
    let third = handle(&b.handle(create, 7, &[0; 12]).expect("create"));
    assert_eq!(third.slot(), first.slot());
    assert_eq!(b.handle(op, 8, &frame(third, 1)), Ok(0u32.to_le_bytes().to_vec()));
    assert!(b.handle(op, 9, &frame(first, 1)).is_err());

    // The counter stays at its maximum.
    b.sessions.get_mut(second).expect("live session").frames = u32::MAX - 1;
    for index in [u32::MAX - 1, u32::MAX, u32::MAX] {
        assert_eq!(b.handle(op, 10, &frame(second, 1)), Ok(index.to_le_bytes().to_vec()));
    }
}

#[test]
fn amf_encoders_count_their_own_frames() {
    let mut b = AmfBackend::new();
    let create = proto::amf_op::CREATE_ENCODER;
    let first = handle(&b.handle(create, 1, &[0; 12]).expect("create"));
    let second = handle(&b.handle(create, 2, &[0; 12]).expect("create"));
    for len in [10u32, 20, 30] {
        let reply = b.handle(proto::amf_op::ENCODE_FRAME, 3, &frame(first, len));
        assert_eq!(reply, Ok(len.to_le_bytes().to_vec()));
    }
    assert_eq!(b.encoders.get(first).map(|state| state.frames), Some(3));
    assert_eq!(b.encoders.get(second).map(|state| state.frames), Some(0));
}
