//! Optix backend.
use graftx::protocol as proto;
use graftx::server::optix_backend::{KIND_OPTIX_CONTEXT, KIND_OPTIX_PIPELINE};
use graftx::server::{Backend, OptixBackend};

/// Encode a `PIPELINE_CREATE` request body for `context`.
fn pipeline_body(context: proto::Handle) -> Vec<u8> {
    let mut body = Vec::new();
    proto::optix::PipelineCreateRequest { context }.encode(&mut body);
    body
}

/// Encode a `DESTROY` request body for `handle`.
fn destroy_body(handle: proto::Handle) -> Vec<u8> {
    let mut body = Vec::new();
    proto::optix::DestroyRequest { handle }.encode(&mut body);
    body
}

/// Drive a backend through `CONTEXT_CREATE`, returning the minted context
/// handle.
fn create_context(backend: &mut OptixBackend) -> proto::Handle {
    let resp = backend
        .handle(proto::optix_op::CONTEXT_CREATE, 1, &[])
        .expect("context create should succeed");
    proto::optix::ContextCreateResponse::decode(&resp)
        .expect("decode context create response")
        .context
}

/// Drive a backend through `CONTEXT_CREATE` then `PIPELINE_CREATE`,
/// returning the minted pipeline handle.
fn create_pipeline(backend: &mut OptixBackend) -> proto::Handle {
    let context = create_context(backend);
    let resp = backend
        .handle(proto::optix_op::PIPELINE_CREATE, 2, &pipeline_body(context))
        .expect("pipeline create should succeed");
    proto::optix::PipelineCreateResponse::decode(&resp)
        .expect("decode pipeline create response")
        .pipeline
}

#[test]
fn context_create_returns_kind_eighty() {
    let mut backend = OptixBackend::new();
    let resp = backend
        .handle(proto::optix_op::CONTEXT_CREATE, 1, &[])
        .expect("context create should succeed");

    let decoded = proto::optix::ContextCreateResponse::decode(&resp).expect("decode response");
    assert_eq!(decoded.context.kind(), KIND_OPTIX_CONTEXT);
    // The returned handle must resolve in the context table.
    assert!(backend.contexts.get(decoded.context).is_some());
}

#[test]
fn pipeline_create_after_context_returns_kind_eighty_one() {
    let mut backend = OptixBackend::new();
    let context = create_context(&mut backend);

    let resp = backend
        .handle(proto::optix_op::PIPELINE_CREATE, 2, &pipeline_body(context))
        .expect("pipeline create should succeed");

    let decoded = proto::optix::PipelineCreateResponse::decode(&resp).expect("decode response");
    assert_eq!(decoded.pipeline.kind(), KIND_OPTIX_PIPELINE);
    let state = backend
        .pipelines
        .get(decoded.pipeline)
        .expect("pipeline state present");
    assert_eq!(state.context.raw(), context.raw());
}

#[test]
fn pipeline_create_with_bogus_context_errors() {
    let mut backend = OptixBackend::new();
    // A handle that was never issued by this backend.
    let bogus = proto::Handle::new(KIND_OPTIX_CONTEXT, 0, 999);
    let err = backend
        .handle(proto::optix_op::PIPELINE_CREATE, 1, &pipeline_body(bogus))
        .expect_err("pipeline create with bogus context must error");
    assert!(matches!(err, proto::ProtocolError::UnknownOpcode(_)));
}

#[test]
fn destroy_of_live_context_succeeds() {
    let mut backend = OptixBackend::new();
    let context = create_context(&mut backend);

    let resp = backend
        .handle(proto::optix_op::DESTROY, 2, &destroy_body(context))
        .expect("destroy should succeed");
    // The reply is an empty ack body.
    assert!(resp.is_empty());
    // The context must no longer resolve.
    assert!(backend.contexts.get(context).is_none());
}

#[test]
fn destroy_of_live_pipeline_succeeds() {
    let mut backend = OptixBackend::new();
    let pipeline = create_pipeline(&mut backend);

    let resp = backend
        .handle(proto::optix_op::DESTROY, 3, &destroy_body(pipeline))
        .expect("destroy should succeed");
    assert!(resp.is_empty());
    // The pipeline must no longer resolve.
    assert!(backend.pipelines.get(pipeline).is_none());
}

#[test]
fn destroy_of_bogus_handle_errors() {
    let mut backend = OptixBackend::new();
    // A handle that was never minted by this backend.
    let bogus = proto::Handle::new(KIND_OPTIX_CONTEXT, 0, 999);
    let err = backend
        .handle(proto::optix_op::DESTROY, 1, &destroy_body(bogus))
        .expect_err("destroy of bogus handle must error");
    assert!(matches!(err, proto::ProtocolError::UnknownOpcode(_)));
}

#[test]
fn destroy_of_already_destroyed_handle_errors() {
    let mut backend = OptixBackend::new();
    let context = create_context(&mut backend);

    backend
        .handle(proto::optix_op::DESTROY, 2, &destroy_body(context))
        .expect("first destroy should succeed");

    let err = backend
        .handle(proto::optix_op::DESTROY, 3, &destroy_body(context))
        .expect_err("second destroy must error");
    assert!(matches!(err, proto::ProtocolError::UnknownOpcode(_)));
}

#[test]
fn optix_backend_out_of_namespace_opcode_errors() {
    let mut backend = OptixBackend::new();
    // Opcode 0 is a core opcode, not in the OptiX namespace.
    let err = backend
        .handle(0, 1, &[])
        .expect_err("non-optix opcode must error");
    assert!(matches!(err, proto::ProtocolError::UnknownOpcode(0)));
}

#[test]
fn destroy_goes_by_the_kind_of_the_handle() {
    // The first context and the first pipeline share slot and generation.
    let mut backend = OptixBackend::new();
    let context = create_context(&mut backend);
    let resp = backend
        .handle(proto::optix_op::PIPELINE_CREATE, 2, &pipeline_body(context))
        .expect("pipeline create should succeed");
    let pipeline = proto::optix::PipelineCreateResponse::decode(&resp)
        .expect("decode pipeline create response")
        .pipeline;
    assert_eq!(pipeline_body(context), vec![0, 0, 0, 0, 0, 0, 0, 80]);
    assert_eq!(pipeline_body(pipeline), vec![0, 0, 0, 0, 0, 0, 0, 81]);

    // Destroying the context leaves the pipeline alone.
    assert_eq!(
        backend.handle(proto::optix_op::DESTROY, 3, &destroy_body(context)),
        Ok(Vec::new())
    );
    assert!(backend.contexts.get(context).is_none());
    assert!(backend.pipelines.get(pipeline).is_some());
    assert_eq!(
        backend.handle(proto::optix_op::PIPELINE_CREATE, 4, &pipeline_body(context)),
        Err(proto::ProtocolError::UnknownOpcode(0x0900_0002))
    );
    assert_eq!(
        backend.handle(proto::optix_op::DESTROY, 5, &destroy_body(context)),
        Err(proto::ProtocolError::UnknownOpcode(proto::optix_op::DESTROY))
    );

    // The pipeline can still be destroyed, once.
    assert_eq!(
        backend.handle(proto::optix_op::DESTROY, 6, &destroy_body(pipeline)),
        Ok(Vec::new())
    );
    assert!(backend.pipelines.get(pipeline).is_none());
    assert!(backend.handle(proto::optix_op::DESTROY, 7, &destroy_body(pipeline)).is_err());
}

#[test]
fn destroy_of_a_pipeline_leaves_the_context_of_its_slot() {
    let mut backend = OptixBackend::new();
    let context = create_context(&mut backend);
    let resp = backend
        .handle(proto::optix_op::PIPELINE_CREATE, 2, &pipeline_body(context))
        .expect("pipeline create should succeed");
    let pipeline = proto::optix::PipelineCreateResponse::decode(&resp)
        .expect("decode pipeline create response")
        .pipeline;
    assert_eq!(
        backend.handle(proto::optix_op::DESTROY, 3, &destroy_body(pipeline)),
        Ok(Vec::new())
    );
    assert!(backend.contexts.get(context).is_some());
    assert!(backend.pipelines.get(pipeline).is_none());
}

#[test]
fn destroy_of_another_kind_names_nothing() {
    let mut backend = OptixBackend::new();
    let context = create_context(&mut backend);
    let other = proto::Handle::new(7, context.generation(), context.slot());
    assert_eq!(
        backend.handle(proto::optix_op::DESTROY, 2, &destroy_body(other)),
        Err(proto::ProtocolError::UnknownOpcode(proto::optix_op::DESTROY))
    );
    assert!(backend.contexts.get(context).is_some());
}
