//! GraftX server.
//!
//! The server runs on the guest that owns the physical GPU. It decodes the
//! forwarded command stream, validates each command (the stream is untrusted),
//! and replays it against the native driver. This module holds the per-session
//! state machine, the per-API backends, and the decisions of the serve loop.
pub mod amf_backend;
pub mod backend;
pub mod cl_backend;
pub mod cuda_backend;
pub mod gl_backend;
pub mod hip_backend;
pub mod l0_backend;
pub mod optix_backend;
pub mod serve;
pub mod session;
pub mod sycl_backend;
pub mod video_backend;
pub mod vk_backend;
pub mod wgpu_backend;

pub use backend::Backend;
pub use amf_backend::AmfBackend;
pub use cl_backend::ClBackend;
pub use cuda_backend::CudaBackend;
pub use gl_backend::GlBackend;
pub use hip_backend::HipBackend;
pub use l0_backend::L0Backend;
pub use optix_backend::OptixBackend;
pub use session::Session;
pub use sycl_backend::SyclBackend;
pub use video_backend::VideoBackend;
pub use vk_backend::VulkanBackend;
pub use wgpu_backend::WebGpuBackend;
