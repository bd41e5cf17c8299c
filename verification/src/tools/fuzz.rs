//! Deterministic robustness fuzzer for the GraftX protocol decoders.
//!
//! The wire format is the single source of truth for the control plane, so a
//! decoder that panics on a hostile buffer is a denial-of-service hole: the
//! peer controls every byte. This module feeds pseudo-random buffers of varied
//! lengths to [`decode_frame`] and to every `Body::decode` entrypoint; each one
//! returns `Ok` or a `ProtocolError` rather than panicking.
//!
//! A small seeded LCG drives the byte generation so a given seed always
//! exercises the same inputs.
use vstd::prelude::*;

use crate::protocol::bytes;
use crate::protocol::wire::Wire;
use crate::protocol::{
    amf, cl, cuda, decode_frame, gl, hip, l0, optix, sycl, video, vk, wgpu, Hello,
    ProtocolError, Welcome,
};
use crate::text;

verus! {

broadcast use {bytes::group_le_len, bytes::lemma_append_to_empty};

/// Default number of inputs to exercise when no count is given on the command
/// line.
pub const DEFAULT_ITERS: usize = 100_000;

/// Largest buffer the generator will produce, in bytes. Kept small: the
/// decoders bottom out on short reads, so longer buffers add cost without
/// reaching new branches.
pub const MAX_BUF_LEN: usize = 64;

/// A 64-bit linear congruential generator. Deterministic and dependency-free;
/// the constants are the well-known PCG/Numerical-Recipes multiplier and
/// increment, which give a full 2^64 period over the whole state word.
pub struct Lcg {
    /// The current state.
    pub state: u64,
}

/// The state after `state`: `a * state + c` modulo 2^64.
#[verifier::opaque]
pub open spec fn lcg_next(state: u64) -> u64 {
    ((state * 6_364_136_223_846_793_005 + 1_442_695_040_888_963_407)
        % 0x1_0000_0000_0000_0000) as u64
}

/// The first `len` bytes drawn from state `state`, eight from each draw.
pub open spec fn drawn(state: u64, len: nat) -> Seq<u8>
    decreases len,
{
    if len <= 8 {
        if len == 0 {
            seq![]
        } else {
            bytes::le_u64(lcg_next(state)).take(len as int)
        }
    } else {
        bytes::le_u64(lcg_next(state)) + drawn(lcg_next(state), (len - 8) as nat)
    }
}

/// The state after drawing `len` bytes from state `state`.
pub open spec fn drawn_state(state: u64, len: nat) -> u64
    decreases len,
{
    if len == 0 {
        state
    } else if len <= 8 {
        lcg_next(state)
    } else {
        drawn_state(lcg_next(state), (len - 8) as nat)
    }
}

impl Lcg {
    /// Seed the generator. Any seed is valid; a fixed seed yields a fixed
    /// stream.
    pub fn new(seed: u64) -> (rng: Self)
        ensures
            rng.state == seed,
    {
        Self { state: seed }
    }

    /// Advance the state and return the next 64-bit value.
    pub fn next_u64(&mut self) -> (v: u64)
        ensures
            v == lcg_next(old(self).state),
            final(self).state == v,
    {
        // x_{n+1} = a * x_n + c (mod 2^64); wrapping is the modulus.
        proof {
            reveal(lcg_next);
            let x = self.state as int * 6_364_136_223_846_793_005;
            let c: int = 1_442_695_040_888_963_407;
            vstd::arithmetic::div_mod::lemma_add_mod_noop(x, c, 0x1_0000_0000_0000_0000);
            vstd::arithmetic::div_mod::lemma_small_mod(
                1_442_695_040_888_963_407nat,
                0x1_0000_0000_0000_0000nat,
            );
        }
        self.state = self.state.wrapping_mul(6_364_136_223_846_793_005).wrapping_add(
            1_442_695_040_888_963_407,
        );
        self.state
    }

    /// Return a value in `0..bound`. `bound` must be non-zero.
    pub fn next_below(&mut self, bound: usize) -> (v: usize)
        requires
            bound > 0,
        ensures
            v == lcg_next(old(self).state) % (bound as u64),
            v < bound,
            final(self).state == lcg_next(old(self).state),
    {
        (self.next_u64() % bound as u64) as usize
    }
}

/// Fill `buf` with a fresh pseudo-random buffer of length `0..=MAX_BUF_LEN`
/// drawn from `rng`. Reuses the backing allocation across calls.
pub fn fill_buf(rng: &mut Lcg, buf: &mut Vec<u8>)
    ensures
        ({
            let first = lcg_next(old(rng).state);
            let len = (first % ((MAX_BUF_LEN + 1) as u64)) as nat;
            &&& final(buf)@ == drawn(first, len)
            &&& final(rng).state == drawn_state(first, len)
        }),
{
    let len: usize = rng.next_below(MAX_BUF_LEN + 1);
    let ghost first = rng.state;
    buf.clear();
    buf.reserve(len);
    // Emit eight bytes at a time from each LCG draw to keep the byte stream
    // cheap relative to the per-input decoder fan-out.
    while buf.len() < len
        invariant
            buf@.len() <= len <= MAX_BUF_LEN,
            buf@ + drawn(rng.state, (len - buf@.len()) as nat) == drawn(first, len as nat),
            drawn_state(rng.state, (len - buf@.len()) as nat) == drawn_state(first, len as nat),
        decreases len - buf.len(),
    {
        let ghost state = rng.state;
        let ghost before = buf@;
        let left: usize = len - buf.len();
        let mut word: Vec<u8> = Vec::new();
        bytes::put_u64(&mut word, rng.next_u64());
        let ghost whole = word@;
        if left < 8 {
            word.truncate(left);
        }
        buf.extend_from_slice(word.as_slice());
        proof {
            if left <= 8 {
                assert(word@ =~= whole.take(left as int));
                assert(buf@ =~= before + drawn(state, left as nat));
                assert(buf@ + drawn(rng.state, 0) =~= buf@);
            } else {
                assert(buf@ =~= before + whole);
                assert(buf@ + drawn(rng.state, (left - 8) as nat) =~= before + drawn(
                    state,
                    left as nat,
                ));
            }
        }
    }
    assert(buf@ + drawn(rng.state, 0) =~= buf@);
}

/// One for a decoder that accepted its input, zero for one that refused it.
#[verifier::opaque]
pub open spec fn ok<T>(r: Result<T, ProtocolError>) -> nat {
    if r is Ok {
        1
    } else {
        0
    }
}

/// Count what one decoder said.
fn tally<T>(r: &Result<T, ProtocolError>) -> (n: usize)
    ensures
        n == ok(*r),
        n <= 1,
{
    reveal(ok);
    if r.is_ok() {
        1
    } else {
        0
    }
}

/// How many of the frame and handshake decoders accept `buf`.
pub open spec fn core_accepting(buf: Seq<u8>) -> nat {
    ok(crate::protocol::frame::parse_frame(buf))
        + ok(Hello::parse(buf))
        + ok(Welcome::parse(buf))
}

/// Feed `buf` to the frame and handshake decoders.
fn exercise_core(buf: &[u8]) -> (count: usize)
    ensures
        count == core_accepting(buf@),
        count <= 3,
{
    let frame = decode_frame(buf);
    assert(ok(frame) == ok(crate::protocol::frame::parse_frame(buf@))) by {
        reveal(ok);
    }
    tally(&frame)
        + tally(&Hello::decode(buf))
        + tally(&Welcome::decode(buf))
}

/// How many of the Vulkan decoders accept `buf`.
pub open spec fn vk_accepting(buf: Seq<u8>) -> nat {
    ok(vk::CreateInstanceRequest::parse(buf))
        + ok(vk::CreateInstanceResponse::parse(buf))
        + ok(vk::EnumeratePhysicalDevicesRequest::parse(buf))
        + ok(vk::parse_devices(buf))
        + ok(vk::CreateDeviceRequest::parse(buf))
        + ok(vk::CreateDeviceResponse::parse(buf))
        + ok(vk::GetDeviceQueueRequest::parse(buf))
        + ok(vk::GetDeviceQueueResponse::parse(buf))
        + ok(vk::AllocateMemoryRequest::parse(buf))
        + ok(vk::AllocateMemoryResponse::parse(buf))
        + ok(vk::CreateBufferRequest::parse(buf))
        + ok(vk::CreateBufferResponse::parse(buf))
        + ok(vk::BindBufferMemoryRequest::parse(buf))
        + ok(vk::CreateCommandPoolRequest::parse(buf))
        + ok(vk::CreateCommandPoolResponse::parse(buf))
        + ok(vk::AllocateCommandBufferRequest::parse(buf))
        + ok(vk::AllocateCommandBufferResponse::parse(buf))
        + ok(vk::QueueSubmitRequest::parse(buf))
        + ok(vk::CmdCopyBufferRequest::parse(buf))
        + ok(vk::CmdDrawRequest::parse(buf))
        + ok(vk::DestroyBufferRequest::parse(buf))
        + ok(vk::FreeMemoryRequest::parse(buf))
        + ok(vk::DestroyCommandPoolRequest::parse(buf))
}

/// Feed `buf` to the Vulkan decoders.
fn exercise_vk(buf: &[u8]) -> (count: usize)
    ensures
        count == vk_accepting(buf@),
        count <= 23,
{
    let devices = vk::EnumeratePhysicalDevicesResponse::decode(buf);
    assert(ok(devices) == ok(vk::parse_devices(buf@))) by {
        reveal(ok);
    }
    tally(&vk::CreateInstanceRequest::decode(buf))
        + tally(&vk::CreateInstanceResponse::decode(buf))
        + tally(&vk::EnumeratePhysicalDevicesRequest::decode(buf))
        + tally(&devices)
        + tally(&vk::CreateDeviceRequest::decode(buf))
        + tally(&vk::CreateDeviceResponse::decode(buf))
        + tally(&vk::GetDeviceQueueRequest::decode(buf))
        + tally(&vk::GetDeviceQueueResponse::decode(buf))
        + tally(&vk::AllocateMemoryRequest::decode(buf))
        + tally(&vk::AllocateMemoryResponse::decode(buf))
        + tally(&vk::CreateBufferRequest::decode(buf))
        + tally(&vk::CreateBufferResponse::decode(buf))
        + tally(&vk::BindBufferMemoryRequest::decode(buf))
        + tally(&vk::CreateCommandPoolRequest::decode(buf))
        + tally(&vk::CreateCommandPoolResponse::decode(buf))
        + tally(&vk::AllocateCommandBufferRequest::decode(buf))
        + tally(&vk::AllocateCommandBufferResponse::decode(buf))
        + tally(&vk::QueueSubmitRequest::decode(buf))
        + tally(&vk::CmdCopyBufferRequest::decode(buf))
        + tally(&vk::CmdDrawRequest::decode(buf))
        + tally(&vk::DestroyBufferRequest::decode(buf))
        + tally(&vk::FreeMemoryRequest::decode(buf))
        + tally(&vk::DestroyCommandPoolRequest::decode(buf))
}

/// How many of the OpenGL decoders accept `buf`.
pub open spec fn gl_accepting(buf: Seq<u8>) -> nat {
    ok(gl::CreateContextResponse::parse(buf))
        + ok(gl::MakeCurrentRequest::parse(buf))
        + ok(gl::GenBufferRequest::parse(buf))
        + ok(gl::GenBufferResponse::parse(buf))
        + ok(gl::SwapBuffersRequest::parse(buf))
        + ok(gl::DeleteBufferRequest::parse(buf))
}

/// Feed `buf` to the OpenGL decoders.
fn exercise_gl(buf: &[u8]) -> (count: usize)
    ensures
        count == gl_accepting(buf@),
        count <= 6,
{
    tally(&gl::CreateContextResponse::decode(buf))
        + tally(&gl::MakeCurrentRequest::decode(buf))
        + tally(&gl::GenBufferRequest::decode(buf))
        + tally(&gl::GenBufferResponse::decode(buf))
        + tally(&gl::SwapBuffersRequest::decode(buf))
        + tally(&gl::DeleteBufferRequest::decode(buf))
}

/// How many of the CUDA decoders accept `buf`.
pub open spec fn cuda_accepting(buf: Seq<u8>) -> nat {
    ok(cuda::CtxCreateRequest::parse(buf))
        + ok(cuda::CtxCreateResponse::parse(buf))
        + ok(cuda::MemAllocRequest::parse(buf))
        + ok(cuda::MemAllocResponse::parse(buf))
        + ok(cuda::MemFreeRequest::parse(buf))
}

/// Feed `buf` to the CUDA decoders.
fn exercise_cuda(buf: &[u8]) -> (count: usize)
    ensures
        count == cuda_accepting(buf@),
        count <= 5,
{
    tally(&cuda::CtxCreateRequest::decode(buf))
        + tally(&cuda::CtxCreateResponse::decode(buf))
        + tally(&cuda::MemAllocRequest::decode(buf))
        + tally(&cuda::MemAllocResponse::decode(buf))
        + tally(&cuda::MemFreeRequest::decode(buf))
}

/// How many of the HIP decoders accept `buf`.
pub open spec fn hip_accepting(buf: Seq<u8>) -> nat {
    ok(hip::MallocRequest::parse(buf))
        + ok(hip::MallocResponse::parse(buf))
        + ok(hip::FreeRequest::parse(buf))
        + ok(hip::StreamCreateResponse::parse(buf))
}

/// Feed `buf` to the HIP decoders.
fn exercise_hip(buf: &[u8]) -> (count: usize)
    ensures
        count == hip_accepting(buf@),
        count <= 4,
{
    tally(&hip::MallocRequest::decode(buf))
        + tally(&hip::MallocResponse::decode(buf))
        + tally(&hip::FreeRequest::decode(buf))
        + tally(&hip::StreamCreateResponse::decode(buf))
}

/// How many of the OpenCL decoders accept `buf`.
pub open spec fn cl_accepting(buf: Seq<u8>) -> nat {
    ok(cl::CreateContextResponse::parse(buf))
        + ok(cl::CreateBufferRequest::parse(buf))
        + ok(cl::CreateBufferResponse::parse(buf))
        + ok(cl::ReleaseBufferRequest::parse(buf))
}

/// Feed `buf` to the OpenCL decoders.
fn exercise_cl(buf: &[u8]) -> (count: usize)
    ensures
        count == cl_accepting(buf@),
        count <= 4,
{
    tally(&cl::CreateContextResponse::decode(buf))
        + tally(&cl::CreateBufferRequest::decode(buf))
        + tally(&cl::CreateBufferResponse::decode(buf))
        + tally(&cl::ReleaseBufferRequest::decode(buf))
}

/// How many of the Level Zero decoders accept `buf`.
pub open spec fn l0_accepting(buf: Seq<u8>) -> nat {
    ok(l0::ContextCreateResponse::parse(buf))
        + ok(l0::MemAllocDeviceRequest::parse(buf))
        + ok(l0::MemAllocDeviceResponse::parse(buf))
        + ok(l0::MemFreeRequest::parse(buf))
}

/// Feed `buf` to the Level Zero decoders.
fn exercise_l0(buf: &[u8]) -> (count: usize)
    ensures
        count == l0_accepting(buf@),
        count <= 4,
{
    tally(&l0::ContextCreateResponse::decode(buf))
        + tally(&l0::MemAllocDeviceRequest::decode(buf))
        + tally(&l0::MemAllocDeviceResponse::decode(buf))
        + tally(&l0::MemFreeRequest::decode(buf))
}

/// How many of the video decoders accept `buf`.
pub open spec fn video_accepting(buf: Seq<u8>) -> nat {
    ok(video::CreateDecodeSessionRequest::parse(buf))
        + ok(video::CreateDecodeSessionResponse::parse(buf))
        + ok(video::DecodeFrameRequest::parse(buf))
        + ok(video::DecodeFrameResponse::parse(buf))
        + ok(video::DestroySessionRequest::parse(buf))
}

/// Feed `buf` to the video decoders.
fn exercise_video(buf: &[u8]) -> (count: usize)
    ensures
        count == video_accepting(buf@),
        count <= 5,
{
    tally(&video::CreateDecodeSessionRequest::decode(buf))
        + tally(&video::CreateDecodeSessionResponse::decode(buf))
        + tally(&video::DecodeFrameRequest::decode(buf))
        + tally(&video::DecodeFrameResponse::decode(buf))
        + tally(&video::DestroySessionRequest::decode(buf))
}

/// How many of the WebGPU decoders accept `buf`.
pub open spec fn wgpu_accepting(buf: Seq<u8>) -> nat {
    ok(wgpu::RequestDeviceResponse::parse(buf))
        + ok(wgpu::CreateBufferRequest::parse(buf))
        + ok(wgpu::CreateBufferResponse::parse(buf))
        + ok(wgpu::DestroyBufferRequest::parse(buf))
}

/// Feed `buf` to the WebGPU decoders.
fn exercise_wgpu(buf: &[u8]) -> (count: usize)
    ensures
        count == wgpu_accepting(buf@),
        count <= 4,
{
    tally(&wgpu::RequestDeviceResponse::decode(buf))
        + tally(&wgpu::CreateBufferRequest::decode(buf))
        + tally(&wgpu::CreateBufferResponse::decode(buf))
        + tally(&wgpu::DestroyBufferRequest::decode(buf))
}

/// How many of the OptiX decoders accept `buf`.
pub open spec fn optix_accepting(buf: Seq<u8>) -> nat {
    ok(optix::ContextCreateResponse::parse(buf))
        + ok(optix::PipelineCreateRequest::parse(buf))
        + ok(optix::PipelineCreateResponse::parse(buf))
        + ok(optix::DestroyRequest::parse(buf))
}

/// Feed `buf` to the OptiX decoders.
fn exercise_optix(buf: &[u8]) -> (count: usize)
    ensures
        count == optix_accepting(buf@),
        count <= 4,
{
    tally(&optix::ContextCreateResponse::decode(buf))
        + tally(&optix::PipelineCreateRequest::decode(buf))
        + tally(&optix::PipelineCreateResponse::decode(buf))
        + tally(&optix::DestroyRequest::decode(buf))
}

/// How many of the SYCL decoders accept `buf`.
pub open spec fn sycl_accepting(buf: Seq<u8>) -> nat {
    ok(sycl::QueueCreateResponse::parse(buf))
        + ok(sycl::MallocDeviceRequest::parse(buf))
        + ok(sycl::MallocDeviceResponse::parse(buf))
        + ok(sycl::FreeRequest::parse(buf))
}

/// Feed `buf` to the SYCL decoders.
fn exercise_sycl(buf: &[u8]) -> (count: usize)
    ensures
        count == sycl_accepting(buf@),
        count <= 4,
{
    tally(&sycl::QueueCreateResponse::decode(buf))
        + tally(&sycl::MallocDeviceRequest::decode(buf))
        + tally(&sycl::MallocDeviceResponse::decode(buf))
        + tally(&sycl::FreeRequest::decode(buf))
}

/// How many of the AMF decoders accept `buf`.
pub open spec fn amf_accepting(buf: Seq<u8>) -> nat {
    ok(amf::CreateEncoderRequest::parse(buf))
        + ok(amf::CreateEncoderResponse::parse(buf))
        + ok(amf::EncodeFrameRequest::parse(buf))
        + ok(amf::EncodeFrameResponse::parse(buf))
        + ok(amf::DestroyEncoderRequest::parse(buf))
}

/// Feed `buf` to the AMF decoders.
fn exercise_amf(buf: &[u8]) -> (count: usize)
    ensures
        count == amf_accepting(buf@),
        count <= 5,
{
    tally(&amf::CreateEncoderRequest::decode(buf))
        + tally(&amf::CreateEncoderResponse::decode(buf))
        + tally(&amf::EncodeFrameRequest::decode(buf))
        + tally(&amf::EncodeFrameResponse::decode(buf))
        + tally(&amf::DestroyEncoderRequest::decode(buf))
}

/// How many of the decoders accept `buf`.
pub open spec fn accepting(buf: Seq<u8>) -> nat {
    core_accepting(buf)
        + vk_accepting(buf)
        + gl_accepting(buf)
        + cuda_accepting(buf)
        + hip_accepting(buf)
        + cl_accepting(buf)
        + l0_accepting(buf)
        + video_accepting(buf)
        + wgpu_accepting(buf)
        + optix_accepting(buf)
        + sycl_accepting(buf)
        + amf_accepting(buf)
}

/// Feed a single buffer to every decoder entrypoint, and count those that accept
/// it. None of them panics: each returns what it decoded or why it could not.
pub fn exercise(buf: &[u8]) -> (count: usize)
    ensures
        count == accepting(buf@),
        count <= 71,
{
    exercise_core(buf)
        + exercise_vk(buf)
        + exercise_gl(buf)
        + exercise_cuda(buf)
        + exercise_hip(buf)
        + exercise_cl(buf)
        + exercise_l0(buf)
        + exercise_video(buf)
        + exercise_wgpu(buf)
        + exercise_optix(buf)
        + exercise_sycl(buf)
        + exercise_amf(buf)
}

/// How many decoders accept the `n` buffers drawn from state `state`, all buffers
/// together.
pub open spec fn accepted_over(state: u64, n: nat) -> nat
    decreases n,
{
    if n == 0 {
        0
    } else {
        let first = lcg_next(state);
        let len = (first % ((MAX_BUF_LEN + 1) as u64)) as nat;
        accepting(drawn(first, len)) + accepted_over(drawn_state(first, len), (n - 1) as nat)
    }
}

/// Feed `n` buffers drawn from `seed` to every decoder, and count the decoders
/// that accept, all buffers together. The same arguments always feed the same
/// buffers.
pub fn fuzz_accepted(seed: u64, n: usize) -> (count: u128)
    ensures
        count == accepted_over(seed, n as nat),
{
    let mut rng = Lcg::new(seed);
    let mut buf: Vec<u8> = Vec::with_capacity(MAX_BUF_LEN);
    let mut accepted: u128 = 0;
    let mut i: usize = 0;
    while i < n
        invariant
            i <= n,
            accepted <= 71 * i,
            accepted + accepted_over(rng.state, (n - i) as nat) == accepted_over(seed, n as nat),
        decreases n - i,
    {
        fill_buf(&mut rng, &mut buf);
        accepted = accepted + exercise(&buf) as u128;
        i = i + 1;
    }
    accepted
}

/// Run `n` fuzz iterations from `seed`, returning the number of distinct input
/// buffers exercised (equal to `n`). Deterministic in both `seed` and `n`: the
/// same arguments always feed the same buffers, so a crash reproduces and the
/// count is stable. What the decoders make of the buffers is dropped;
/// [`fuzz_accepted`] counts it.
pub fn fuzz_iter(seed: u64, n: usize) -> (count: usize)
    ensures
        count == n,
{
    let _accepted: u128 = fuzz_accepted(seed, n);
    n
}

/// Parse the iteration count from the first CLI argument, falling back to
/// [`DEFAULT_ITERS`] when absent. Returns `None` on an unparsable argument.
pub fn parse_iters(arg: Option<String>) -> (r: Option<usize>)
    ensures
        match arg {
            None => r == Some(DEFAULT_ITERS),
            Some(s) => match text::number(s@) {
                Some(n) => r == if n <= usize::MAX {
                    Some(n as usize)
                } else {
                    None
                },
                None => r is None,
            },
        },
{
    match arg {
        Some(s) => match text::parse_number(s.as_str(), usize::MAX as u64) {
            Some(n) => Some(n as usize),
            None => None,
        },
        None => Some(DEFAULT_ITERS),
    }
}

/// The generator goes from state to state by the multiplier and the increment that
/// it is named for, modulo 2^64.
pub proof fn law_lcg_recurrence(state: u64) -> (carry: int)
    ensures
        state * 6_364_136_223_846_793_005 + 1_442_695_040_888_963_407 == lcg_next(state) + carry
            * 0x1_0000_0000_0000_0000,
{
    reveal(lcg_next);
    let sum = state * 6_364_136_223_846_793_005 + 1_442_695_040_888_963_407;
    sum / 0x1_0000_0000_0000_0000
}

/// As many bytes are drawn as were asked for, and drawing more gives the same bytes
/// first.
pub proof fn law_drawn_extends(state: u64, short: nat, long: nat)
    requires
        short <= long,
    ensures
        drawn(state, long).len() == long,
        drawn(state, short) == drawn(state, long).take(short as int),
    decreases long,
{
    if long > 8 {
        let next = lcg_next(state);
        let word = bytes::le_u64(next);
        if short > 8 {
            law_drawn_extends(next, (short - 8) as nat, (long - 8) as nat);
            assert(drawn(state, short) =~= drawn(state, long).take(short as int));
        } else {
            law_drawn_extends(next, 0, (long - 8) as nat);
            assert(drawn(state, short) =~= drawn(state, long).take(short as int));
        }
    } else {
        assert(drawn(state, short) =~= drawn(state, long).take(short as int));
    }
}

/// Every decoder is asked, and each once: an empty buffer is accepted by none of
/// them, and a buffer that is long enough for every message, starts with an empty
/// device list and carries a known frame kind by all seventy-one.
pub proof fn law_every_decoder_is_asked(buf: Seq<u8>)
    ensures
        accepting(seq![]) == 0,
        buf.len() >= 32 && bytes::u32_at(buf, 0) == 0 && bytes::u16_at(buf, 4) <= 2
            ==> accepting(buf) == 71,
{
    reveal(ok);
}

/// Over a run of buffers at most seventy-one decoders accept each, and nothing is
/// accepted where none is drawn.
pub proof fn law_accepted_bounded(state: u64, n: nat)
    ensures
        accepted_over(state, n) <= 71 * n,
        accepted_over(state, 0) == 0,
    decreases n,
{
    if n > 0 {
        let first = lcg_next(state);
        let len = (first % ((MAX_BUF_LEN + 1) as u64)) as nat;
        law_accepted_bounded(drawn_state(first, len), (n - 1) as nat);
        lemma_accepting_bounded(drawn(first, len));
    }
}

/// There are seventy-one decoders.
proof fn lemma_accepting_bounded(buf: Seq<u8>)
    ensures
        accepting(buf) <= 71,
{
    reveal(ok);
}

/// Without an argument the default count is taken; a number in range is taken as it
/// is; anything else is no count.
pub proof fn law_iters_parsed(arg: Option<String>, n: nat, r: Option<usize>)
    requires
        call_ensures(parse_iters, (arg,), r),
    ensures
        arg is None ==> r == Some(100_000usize),
        arg matches Some(s) && s@ == text::dec(n) && n <= usize::MAX ==> r == Some(n as usize),
        arg matches Some(s) && s@ == text::dec(n) && n > usize::MAX ==> r is None,
        arg matches Some(s) && text::number(s@) is None ==> r is None,
{
    text::law_dec_reads_back(n);
}

/// The state after `n` draws from state `state`.
pub open spec fn lcg_after(state: u64, n: nat) -> u64
    decreases n,
{
    if n == 0 {
        state
    } else {
        lcg_next(lcg_after(state, (n - 1) as nat))
    }
}

/// One draw and then `n` more are `n + 1` draws.
proof fn lemma_after_first(state: u64, n: nat)
    ensures
        lcg_after(lcg_next(state), n) == lcg_after(state, n + 1),
    decreases n,
{
    if n > 0 {
        lemma_after_first(state, (n - 1) as nat);
    } else {
        assert(lcg_after(state, 0) == state);
    }
}

/// Bytes are drawn eight at a time, least significant first, from one state after
/// the other, and no more states are drawn than the bytes need.
pub proof fn law_drawn_words(state: u64, len: nat, k: int)
    ensures
        0 <= k < len ==> drawn(state, len)[k] == bytes::le_u64(
            lcg_after(state, (k / 8 + 1) as nat),
        )[k % 8],
        drawn_state(state, len) == lcg_after(state, (len + 7) / 8),
    decreases len,
{
    let next = lcg_next(state);
    let word = bytes::le_u64(next);
    assert(lcg_after(state, 0) == state);
    assert(lcg_after(state, 1) == next);
    if 0 <= k < len && k < 8 {
        assert(k / 8 == 0 && k % 8 == k);
        assert(drawn(state, len)[k] == word[k]);
    }
    if len > 8 {
        let left = (len - 8) as nat;
        law_drawn_words(next, left, k - 8);
        lemma_after_first(state, (left + 7) / 8);
        if 8 <= k < len {
            let j = (k - 8) / 8 + 1;
            lemma_after_first(state, j as nat);
            assert(j == k / 8 && (k - 8) % 8 == k % 8);
            law_drawn_extends(next, left, left);
            assert(drawn(state, len) == word + drawn(next, left));
        }
    }
}

/// A buffer is filled with as many bytes as the first draw leaves modulo 65, drawn
/// from the states that follow; what was in it is gone. The decoders are counted
/// over the buffers that are filled one after the other.
pub proof fn law_buffer_filled(rng: &mut Lcg, buf: &mut Vec<u8>, n: nat, k: int)
    requires
        call_ensures(fill_buf, (rng, buf), ()),
    ensures
        final(buf)@.len() == lcg_after(old(rng).state, 1) % 65,
        0 <= k < final(buf)@.len() ==> final(buf)@[k] == bytes::le_u64(
            lcg_after(old(rng).state, (k / 8 + 2) as nat),
        )[k % 8],
        final(rng).state == lcg_after(old(rng).state, 1 + (final(buf)@.len() + 7) / 8),
        accepted_over(old(rng).state, n + 1) == accepting(final(buf)@) + accepted_over(
            final(rng).state,
            n,
        ),
{
    let state = rng.state;
    let first = lcg_next(state);
    let len = (first % ((MAX_BUF_LEN + 1) as u64)) as nat;
    assert(lcg_after(state, 0) == state);
    assert(lcg_after(state, 1) == first);
    law_drawn_extends(first, len, len);
    law_drawn_words(first, len, k);
    lemma_after_first(state, (len + 7) / 8);
    if 0 <= k < len {
        lemma_after_first(state, (k / 8 + 1) as nat);
    }
}

/// A draw hands out the next state, whole or modulo a bound, and keeps it; a
/// generator starts at its seed. A run draws its buffers from the seed, and is as
/// long as it was asked to be.
pub proof fn law_draws(
    rng: &mut Lcg,
    v: u64,
    bound: usize,
    below: usize,
    seed: u64,
    new: Lcg,
    n: usize,
    accepted: u128,
    count: usize,
)
    ensures
        call_ensures(Lcg::new, (seed,), new) ==> new.state == seed,
        call_ensures(Lcg::next_u64, (rng,), v) ==> v == lcg_after(old(rng).state, 1)
            && final(rng).state == v,
        bound > 0 && call_ensures(Lcg::next_below, (rng, bound), below) ==> {
            &&& below < bound
            &&& below == lcg_after(old(rng).state, 1) % (bound as u64)
            &&& final(rng).state == lcg_after(old(rng).state, 1)
        },
        call_ensures(fuzz_accepted, (seed, n), accepted) ==> accepted == accepted_over(
            seed,
            n as nat,
        ),
        call_ensures(fuzz_iter, (seed, n), count) ==> count == n,
{
    assert(lcg_after(rng.state, 0) == rng.state);
    assert(lcg_after(rng.state, 1) == lcg_next(rng.state));
}

} // verus!
