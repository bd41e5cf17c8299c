//! Vulkan request/response body encoders and decoders.
//!
//! These match the canonical wire bodies for the Vulkan opcodes in [`vk_op`](super::vk_op).
//! Every multi-byte field is little-endian and a [`Handle`] is carried as its
//! raw 64-bit value (see [`Handle::raw`]). Short buffers decode to
//! [`ProtocolError::UnexpectedEof`].
use vstd::prelude::*;

use super::bytes;
use super::handle::Handle;
use super::wire::{CanonicalWire, Wire};
use super::ProtocolError;

verus! {

broadcast use {super::bytes::group_le_len, super::handle::group_handle_raw};

/// Request body for [`vk_op::CREATE_INSTANCE`](super::vk_op::CREATE_INSTANCE).
#[derive(Debug, Clone, Copy, PartialEq, Eq)]
pub struct CreateInstanceRequest {
    /// Application-requested Vulkan API version.
    pub app_api_version: u32,
}

impl Wire for CreateInstanceRequest {
    open spec fn bytes(&self) -> Seq<u8> {
        bytes::le_u32(self.app_api_version)
    }

    open spec fn parse(s: Seq<u8>) -> Result<Self, ProtocolError> {
        if s.len() < 4 {
            Err(ProtocolError::UnexpectedEof)
        } else {
            Ok(
                CreateInstanceRequest {
                    app_api_version: bytes::u32_at(s, 0),
                },
            )
        }
    }

    proof fn law_round_trip(&self, rest: Seq<u8>) {
        let s = self.bytes() + rest;
        bytes::lemma_u32_at(s, 0, self.app_api_version);
    }

    proof fn law_truncated(&self, n: int) {
    }
}

impl CanonicalWire for CreateInstanceRequest {
    proof fn law_canonical(s: Seq<u8>) {
        if s.len() >= 4 {
            bytes::lemma_le_u32(s, 0);
            assert(s.subrange(0, 4) =~= s.take(4));
        }
    }

    proof fn law_refusal(s: Seq<u8>) {
    }
}

impl CreateInstanceRequest {
    /// Append the encoded body to `out`.
    pub fn encode(&self, out: &mut Vec<u8>)
        ensures
            final(out)@ == old(out)@ + self.bytes(),
    {
        bytes::put_u32(out, self.app_api_version);
    }

    /// Decode a body.
    pub fn decode(buf: &[u8]) -> (r: Result<Self, ProtocolError>)
        ensures
            r == Self::parse(buf@),
    {
        let mut r = bytes::Reader::new(buf);
        Ok(
            Self {
                app_api_version: r.u32()?,
            },
        )
    }
}

/// Response body for [`vk_op::CREATE_INSTANCE`](super::vk_op::CREATE_INSTANCE).
#[derive(Debug, Clone, Copy, PartialEq, Eq)]
pub struct CreateInstanceResponse {
    /// Handle naming the newly created instance.
    pub instance: Handle,
}

impl Wire for CreateInstanceResponse {
    open spec fn bytes(&self) -> Seq<u8> {
        bytes::le_u64(self.instance@)
    }

    open spec fn parse(s: Seq<u8>) -> Result<Self, ProtocolError> {
        if s.len() < 8 {
            Err(ProtocolError::UnexpectedEof)
        } else {
            Ok(
                CreateInstanceResponse {
                    instance: Handle::of(bytes::u64_at(s, 0)),
                },
            )
        }
    }

    proof fn law_round_trip(&self, rest: Seq<u8>) {
        let s = self.bytes() + rest;
        bytes::lemma_u64_at(s, 0, self.instance@);
    }

    proof fn law_truncated(&self, n: int) {
    }
}

impl CanonicalWire for CreateInstanceResponse {
    proof fn law_canonical(s: Seq<u8>) {
        if s.len() >= 8 {
            bytes::lemma_le_u64(s, 0);
            assert(s.subrange(0, 8) =~= s.take(8));
        }
    }

    proof fn law_refusal(s: Seq<u8>) {
    }
}

impl CreateInstanceResponse {
    /// Append the encoded body to `out`.
    pub fn encode(&self, out: &mut Vec<u8>)
        ensures
            final(out)@ == old(out)@ + self.bytes(),
    {
        bytes::put_u64(out, self.instance.raw());
    }

    /// Decode a body.
    pub fn decode(buf: &[u8]) -> (r: Result<Self, ProtocolError>)
        ensures
            r == Self::parse(buf@),
    {
        let mut r = bytes::Reader::new(buf);
        Ok(
            Self {
                instance: Handle::from_raw(r.u64()?),
            },
        )
    }
}

/// Request body for
/// [`vk_op::ENUMERATE_PHYSICAL_DEVICES`](super::vk_op::ENUMERATE_PHYSICAL_DEVICES).
#[derive(Debug, Clone, Copy, PartialEq, Eq)]
pub struct EnumeratePhysicalDevicesRequest {
    /// Handle naming the instance whose devices are listed.
    pub instance: Handle,
}

impl Wire for EnumeratePhysicalDevicesRequest {
    open spec fn bytes(&self) -> Seq<u8> {
        bytes::le_u64(self.instance@)
    }

    open spec fn parse(s: Seq<u8>) -> Result<Self, ProtocolError> {
        if s.len() < 8 {
            Err(ProtocolError::UnexpectedEof)
        } else {
            Ok(
                EnumeratePhysicalDevicesRequest {
                    instance: Handle::of(bytes::u64_at(s, 0)),
                },
            )
        }
    }

    proof fn law_round_trip(&self, rest: Seq<u8>) {
        let s = self.bytes() + rest;
        bytes::lemma_u64_at(s, 0, self.instance@);
    }

    proof fn law_truncated(&self, n: int) {
    }
}

impl CanonicalWire for EnumeratePhysicalDevicesRequest {
    proof fn law_canonical(s: Seq<u8>) {
        if s.len() >= 8 {
            bytes::lemma_le_u64(s, 0);
            assert(s.subrange(0, 8) =~= s.take(8));
        }
    }

    proof fn law_refusal(s: Seq<u8>) {
    }
}

impl EnumeratePhysicalDevicesRequest {
    /// Append the encoded body to `out`.
    pub fn encode(&self, out: &mut Vec<u8>)
        ensures
            final(out)@ == old(out)@ + self.bytes(),
    {
        bytes::put_u64(out, self.instance.raw());
    }

    /// Decode a body.
    pub fn decode(buf: &[u8]) -> (r: Result<Self, ProtocolError>)
        ensures
            r == Self::parse(buf@),
    {
        let mut r = bytes::Reader::new(buf);
        Ok(
            Self {
                instance: Handle::from_raw(r.u64()?),
            },
        )
    }
}

/// The handles that stand in `s`, eight bytes each, from `i` on.
pub open spec fn handles_at(s: Seq<u8>, i: int, n: nat) -> Seq<Handle> {
    Seq::new(n, |k: int| Handle::of(bytes::u64_at(s, i + 8 * k)))
}

/// The bytes of a list of handles: the raw values one after the other.
pub open spec fn handle_bytes(devices: Seq<Handle>) -> Seq<u8>
    decreases devices.len(),
{
    if devices.len() == 0 {
        seq![]
    } else {
        handle_bytes(devices.drop_last()) + bytes::le_u64(devices.last()@)
    }
}

/// The bytes of a device list: the count, cut to 32 bits, and the handles.
pub open spec fn device_list_bytes(devices: Seq<Handle>) -> Seq<u8> {
    bytes::le_u32(bytes::low_u32(devices.len())) + handle_bytes(devices)
}

/// The device list at the front of `s`: a count, then that many handles.
pub open spec fn parse_devices(s: Seq<u8>) -> Result<Seq<Handle>, ProtocolError> {
    if s.len() < 4 || s.len() < 4 + 8 * bytes::u32_at(s, 0) {
        Err(ProtocolError::UnexpectedEof)
    } else {
        Ok(handles_at(s, 4, bytes::u32_at(s, 0) as nat))
    }
}

/// Response body for
/// [`vk_op::ENUMERATE_PHYSICAL_DEVICES`](super::vk_op::ENUMERATE_PHYSICAL_DEVICES).
///
/// Encoded as a `u32` count followed by that many 64-bit handles.
#[derive(Debug, Clone, PartialEq, Eq)]
pub struct EnumeratePhysicalDevicesResponse {
    /// Handles naming the physical devices on the instance.
    pub devices: Vec<Handle>,
}

impl EnumeratePhysicalDevicesResponse {
    /// The bytes of the message.
    pub open spec fn bytes(&self) -> Seq<u8> {
        device_list_bytes(self.devices@)
    }

    /// Append the encoded body to `out`.
    pub fn encode(&self, out: &mut Vec<u8>)
        ensures
            final(out)@ == old(out)@ + self.bytes(),
    {
        let len: usize = self.devices.len();
        bytes::put_u32(out, bytes::len_u32(len));
        let mut i: usize = 0;
        while i < len
            invariant
                i <= len,
                len == self.devices@.len(),
                out@ == old(out)@ + bytes::le_u32(bytes::low_u32(len as nat)) + handle_bytes(
                    self.devices@.take(i as int),
                ),
            decreases len - i,
        {
            bytes::put_u64(out, self.devices[i].raw());
            i = i + 1;
            assert(self.devices@.take(i as int).drop_last() =~= self.devices@.take(i - 1));
        }
        assert(self.devices@.take(len as int) =~= self.devices@);
    }

    /// Decode a body.
    pub fn decode(buf: &[u8]) -> (r: Result<Self, ProtocolError>)
        ensures
            match r {
                Ok(m) => parse_devices(buf@) == Ok::<Seq<Handle>, ProtocolError>(m.devices@),
                Err(e) => parse_devices(buf@) == Err::<Seq<Handle>, ProtocolError>(e),
            },
    {
        let mut r = bytes::Reader::new(buf);
        let count: u32 = r.u32()?;
        let mut devices: Vec<Handle> = Vec::new();
        let mut i: u32 = 0;
        while i < count
            invariant
                i <= count,
                buf@.len() >= 4,
                count == bytes::u32_at(buf@, 0),
                r.buf == buf,
                r.pos == 4 + 8 * i,
                r.pos <= buf@.len(),
                devices@ == handles_at(buf@, 4, i as nat),
            decreases count - i,
        {
            devices.push(Handle::from_raw(r.u64()?));
            i = i + 1;
        }
        Ok(Self { devices })
    }
}

/// The bytes of a list of handles, read back, are that list.
proof fn lemma_handle_bytes(devices: Seq<Handle>, s: Seq<u8>, i: int)
    requires
        0 <= i,
        i + 8 * devices.len() <= s.len(),
        s.subrange(i, i + 8 * devices.len()) =~= handle_bytes(devices),
    ensures
        handles_at(s, i, devices.len()) == devices,
    decreases devices.len(),
{
    if devices.len() > 0 {
        let n = devices.len() - 1;
        lemma_handle_bytes_len(devices.drop_last());
        let b = handle_bytes(devices);
        assert(b.subrange(0, 8 * n) =~= handle_bytes(devices.drop_last()));
        assert(b.subrange(8 * n, 8 * n + 8) =~= bytes::le_u64(devices.last()@));
        assert(s.subrange(i, i + 8 * n) =~= b.subrange(0, 8 * n));
        assert(s.subrange(i + 8 * n, i + 8 * n + 8) =~= b.subrange(8 * n, 8 * n + 8));
        lemma_handle_bytes(devices.drop_last(), s, i);
        bytes::lemma_u64_at(s, i + 8 * n, devices.last()@);
        assert forall|k: int| 0 <= k < devices.len() implies handles_at(s, i, devices.len())[k]
            == devices[k] by {
            if k < n {
                assert(handles_at(s, i, n as nat)[k] == devices.drop_last()[k]);
            }
        }
        assert(handles_at(s, i, devices.len()) =~= devices);
    } else {
        assert(handles_at(s, i, 0) =~= devices);
    }
}

/// A device list takes four bytes for the count and eight for each handle.
pub proof fn law_device_list_len(devices: Seq<Handle>)
    ensures
        device_list_bytes(devices).len() == 4 + 8 * devices.len(),
{
    lemma_handle_bytes_len(devices);
}

/// A list of handles takes eight bytes for each.
proof fn lemma_handle_bytes_len(devices: Seq<Handle>)
    ensures
        handle_bytes(devices).len() == 8 * devices.len(),
    decreases devices.len(),
{
    if devices.len() > 0 {
        lemma_handle_bytes_len(devices.drop_last());
    }
}

/// Decoding a device list gives back the list that was encoded, whatever bytes
/// follow it, as long as the count fits its 32-bit field.
pub proof fn law_devices_round_trip(devices: Seq<Handle>, rest: Seq<u8>)
    requires
        devices.len() < 0x1_0000_0000,
    ensures
        parse_devices(device_list_bytes(devices) + rest) == Ok::<Seq<Handle>, ProtocolError>(
            devices,
        ),
{
    let s = device_list_bytes(devices) + rest;
    let n = devices.len() as int;
    lemma_handle_bytes_len(devices);
    bytes::lemma_u32_at(s, 0, n as u32);
    assert(s.subrange(4, 4 + 8 * n) =~= handle_bytes(devices));
    lemma_handle_bytes(devices, s, 4);
}

/// Decoding a device list gives back the list that was encoded where nothing
/// follows it.
pub proof fn law_devices_whole(devices: Seq<Handle>)
    requires
        devices.len() < 0x1_0000_0000,
    ensures
        parse_devices(device_list_bytes(devices)) == Ok::<Seq<Handle>, ProtocolError>(devices),
{
    law_devices_round_trip(devices, seq![]);
    assert(device_list_bytes(devices) + Seq::<u8>::empty() =~= device_list_bytes(devices));
}

/// The list of one device is that of no other device, and not the empty list.
pub proof fn law_one_device(device: Handle)
    ensures
        device_list_bytes(seq![device]) != device_list_bytes(seq![]),
        forall|other: Handle| #[trigger]
            device_list_bytes(seq![other]) == device_list_bytes(seq![device]) ==> other == device,
{
    law_devices_whole(seq![]);
    law_devices_whole(seq![device]);
    assert(seq![device][0] == device);
    assert forall|other: Handle| #[trigger]
        device_list_bytes(seq![other]) == device_list_bytes(seq![device]) implies other
        == device by {
        law_devices_whole(seq![other]);
        assert(seq![other][0] == other);
    }
}

/// A device list that is cut short is refused as an unexpected end of buffer.
pub proof fn law_devices_truncated(devices: Seq<Handle>, n: int)
    requires
        devices.len() < 0x1_0000_0000,
        0 <= n < device_list_bytes(devices).len(),
    ensures
        parse_devices(device_list_bytes(devices).take(n)) == Err::<Seq<Handle>, ProtocolError>(
            ProtocolError::UnexpectedEof,
        ),
{
    let s = device_list_bytes(devices).take(n);
    lemma_handle_bytes_len(devices);
    if n >= 4 {
        assert(s.subrange(0, 4) =~= bytes::le_u32(devices.len() as u32));
        bytes::lemma_u32_at(s, 0, devices.len() as u32);
    }
}

/// Request body for [`vk_op::CREATE_DEVICE`](super::vk_op::CREATE_DEVICE).
#[derive(Debug, Clone, Copy, PartialEq, Eq)]
pub struct CreateDeviceRequest {
    /// Handle naming the physical device the logical device is created from.
    pub physical_device: Handle,
}

impl Wire for CreateDeviceRequest {
    open spec fn bytes(&self) -> Seq<u8> {
        bytes::le_u64(self.physical_device@)
    }

    open spec fn parse(s: Seq<u8>) -> Result<Self, ProtocolError> {
        if s.len() < 8 {
            Err(ProtocolError::UnexpectedEof)
        } else {
            Ok(
                CreateDeviceRequest {
                    physical_device: Handle::of(bytes::u64_at(s, 0)),
                },
            )
        }
    }

    proof fn law_round_trip(&self, rest: Seq<u8>) {
        let s = self.bytes() + rest;
        bytes::lemma_u64_at(s, 0, self.physical_device@);
    }

    proof fn law_truncated(&self, n: int) {
    }
}

impl CanonicalWire for CreateDeviceRequest {
    proof fn law_canonical(s: Seq<u8>) {
        if s.len() >= 8 {
            bytes::lemma_le_u64(s, 0);
            assert(s.subrange(0, 8) =~= s.take(8));
        }
    }

    proof fn law_refusal(s: Seq<u8>) {
    }
}

impl CreateDeviceRequest {
    /// Append the encoded body to `out`.
    pub fn encode(&self, out: &mut Vec<u8>)
        ensures
            final(out)@ == old(out)@ + self.bytes(),
    {
        bytes::put_u64(out, self.physical_device.raw());
    }

    /// Decode a body.
    pub fn decode(buf: &[u8]) -> (r: Result<Self, ProtocolError>)
        ensures
            r == Self::parse(buf@),
    {
        let mut r = bytes::Reader::new(buf);
        Ok(
            Self {
                physical_device: Handle::from_raw(r.u64()?),
            },
        )
    }
}

/// Response body for [`vk_op::CREATE_DEVICE`](super::vk_op::CREATE_DEVICE).
#[derive(Debug, Clone, Copy, PartialEq, Eq)]
pub struct CreateDeviceResponse {
    /// Handle naming the newly created logical device.
    pub device: Handle,
}

impl Wire for CreateDeviceResponse {
    open spec fn bytes(&self) -> Seq<u8> {
        bytes::le_u64(self.device@)
    }

    open spec fn parse(s: Seq<u8>) -> Result<Self, ProtocolError> {
        if s.len() < 8 {
            Err(ProtocolError::UnexpectedEof)
        } else {
            Ok(
                CreateDeviceResponse {
                    device: Handle::of(bytes::u64_at(s, 0)),
                },
            )
        }
    }

    proof fn law_round_trip(&self, rest: Seq<u8>) {
        let s = self.bytes() + rest;
        bytes::lemma_u64_at(s, 0, self.device@);
    }

    proof fn law_truncated(&self, n: int) {
    }
}

impl CanonicalWire for CreateDeviceResponse {
    proof fn law_canonical(s: Seq<u8>) {
        if s.len() >= 8 {
            bytes::lemma_le_u64(s, 0);
            assert(s.subrange(0, 8) =~= s.take(8));
        }
    }

    proof fn law_refusal(s: Seq<u8>) {
    }
}

impl CreateDeviceResponse {
    /// Append the encoded body to `out`.
    pub fn encode(&self, out: &mut Vec<u8>)
        ensures
            final(out)@ == old(out)@ + self.bytes(),
    {
        bytes::put_u64(out, self.device.raw());
    }

    /// Decode a body.
    pub fn decode(buf: &[u8]) -> (r: Result<Self, ProtocolError>)
        ensures
            r == Self::parse(buf@),
    {
        let mut r = bytes::Reader::new(buf);
        Ok(
            Self {
                device: Handle::from_raw(r.u64()?),
            },
        )
    }
}

/// Request body for [`vk_op::GET_DEVICE_QUEUE`](super::vk_op::GET_DEVICE_QUEUE).
#[derive(Debug, Clone, Copy, PartialEq, Eq)]
pub struct GetDeviceQueueRequest {
    /// Handle naming the logical device the queue belongs to.
    pub device: Handle,
    /// Index of the queue family.
    pub queue_family_index: u32,
    /// Index of the queue within its family.
    pub queue_index: u32,
}

impl Wire for GetDeviceQueueRequest {
    open spec fn bytes(&self) -> Seq<u8> {
        bytes::le_u64(self.device@) + bytes::le_u32(self.queue_family_index)
            + bytes::le_u32(self.queue_index)
    }

    open spec fn parse(s: Seq<u8>) -> Result<Self, ProtocolError> {
        if s.len() < 16 {
            Err(ProtocolError::UnexpectedEof)
        } else {
            Ok(
                GetDeviceQueueRequest {
                    device: Handle::of(bytes::u64_at(s, 0)),
                    queue_family_index: bytes::u32_at(s, 8),
                    queue_index: bytes::u32_at(s, 12),
                },
            )
        }
    }

    proof fn law_round_trip(&self, rest: Seq<u8>) {
        let s = self.bytes() + rest;
        bytes::lemma_u64_at(s, 0, self.device@);
        bytes::lemma_u32_at(s, 8, self.queue_family_index);
        bytes::lemma_u32_at(s, 12, self.queue_index);
    }

    proof fn law_truncated(&self, n: int) {
    }
}

impl CanonicalWire for GetDeviceQueueRequest {
    proof fn law_canonical(s: Seq<u8>) {
        if s.len() >= 16 {
            bytes::lemma_le_u64(s, 0);
            bytes::lemma_le_u32(s, 8);
            bytes::lemma_le_u32(s, 12);
            assert(s.subrange(0, 8) + s.subrange(8, 12) + s.subrange(12, 16) =~= s.take(16));
        }
    }

    proof fn law_refusal(s: Seq<u8>) {
    }
}

impl GetDeviceQueueRequest {
    /// Append the encoded body to `out`.
    pub fn encode(&self, out: &mut Vec<u8>)
        ensures
            final(out)@ == old(out)@ + self.bytes(),
    {
        bytes::put_u64(out, self.device.raw());
        bytes::put_u32(out, self.queue_family_index);
        bytes::put_u32(out, self.queue_index);
    }

    /// Decode a body.
    pub fn decode(buf: &[u8]) -> (r: Result<Self, ProtocolError>)
        ensures
            r == Self::parse(buf@),
    {
        let mut r = bytes::Reader::new(buf);
        Ok(
            Self {
                device: Handle::from_raw(r.u64()?),
                queue_family_index: r.u32()?,
                queue_index: r.u32()?,
            },
        )
    }
}

/// Response body for [`vk_op::GET_DEVICE_QUEUE`](super::vk_op::GET_DEVICE_QUEUE).
#[derive(Debug, Clone, Copy, PartialEq, Eq)]
pub struct GetDeviceQueueResponse {
    /// Handle naming the retrieved queue.
    pub queue: Handle,
}

impl Wire for GetDeviceQueueResponse {
    open spec fn bytes(&self) -> Seq<u8> {
        bytes::le_u64(self.queue@)
    }

    open spec fn parse(s: Seq<u8>) -> Result<Self, ProtocolError> {
        if s.len() < 8 {
            Err(ProtocolError::UnexpectedEof)
        } else {
            Ok(
                GetDeviceQueueResponse {
                    queue: Handle::of(bytes::u64_at(s, 0)),
                },
            )
        }
    }

    proof fn law_round_trip(&self, rest: Seq<u8>) {
        let s = self.bytes() + rest;
        bytes::lemma_u64_at(s, 0, self.queue@);
    }

    proof fn law_truncated(&self, n: int) {
    }
}

impl CanonicalWire for GetDeviceQueueResponse {
    proof fn law_canonical(s: Seq<u8>) {
        if s.len() >= 8 {
            bytes::lemma_le_u64(s, 0);
            assert(s.subrange(0, 8) =~= s.take(8));
        }
    }

    proof fn law_refusal(s: Seq<u8>) {
    }
}

impl GetDeviceQueueResponse {
    /// Append the encoded body to `out`.
    pub fn encode(&self, out: &mut Vec<u8>)
        ensures
            final(out)@ == old(out)@ + self.bytes(),
    {
        bytes::put_u64(out, self.queue.raw());
    }

    /// Decode a body.
    pub fn decode(buf: &[u8]) -> (r: Result<Self, ProtocolError>)
        ensures
            r == Self::parse(buf@),
    {
        let mut r = bytes::Reader::new(buf);
        Ok(
            Self {
                queue: Handle::from_raw(r.u64()?),
            },
        )
    }
}

/// Request body for [`vk_op::ALLOCATE_MEMORY`](super::vk_op::ALLOCATE_MEMORY).
#[derive(Debug, Clone, Copy, PartialEq, Eq)]
pub struct AllocateMemoryRequest {
    /// Handle naming the device the memory is allocated on.
    pub device: Handle,
    /// Size of the allocation in bytes.
    pub size: u64,
}

impl Wire for AllocateMemoryRequest {
    open spec fn bytes(&self) -> Seq<u8> {
        bytes::le_u64(self.device@) + bytes::le_u64(self.size)
    }

    open spec fn parse(s: Seq<u8>) -> Result<Self, ProtocolError> {
        if s.len() < 16 {
            Err(ProtocolError::UnexpectedEof)
        } else {
            Ok(
                AllocateMemoryRequest {
                    device: Handle::of(bytes::u64_at(s, 0)),
                    size: bytes::u64_at(s, 8),
                },
            )
        }
    }

    proof fn law_round_trip(&self, rest: Seq<u8>) {
        let s = self.bytes() + rest;
        bytes::lemma_u64_at(s, 0, self.device@);
        bytes::lemma_u64_at(s, 8, self.size);
    }

    proof fn law_truncated(&self, n: int) {
    }
}

impl CanonicalWire for AllocateMemoryRequest {
    proof fn law_canonical(s: Seq<u8>) {
        if s.len() >= 16 {
            bytes::lemma_le_u64(s, 0);
            bytes::lemma_le_u64(s, 8);
            assert(s.subrange(0, 8) + s.subrange(8, 16) =~= s.take(16));
        }
    }

    proof fn law_refusal(s: Seq<u8>) {
    }
}

impl AllocateMemoryRequest {
    /// Append the encoded body to `out`.
    pub fn encode(&self, out: &mut Vec<u8>)
        ensures
            final(out)@ == old(out)@ + self.bytes(),
    {
        bytes::put_u64(out, self.device.raw());
        bytes::put_u64(out, self.size);
    }

    /// Decode a body.
    pub fn decode(buf: &[u8]) -> (r: Result<Self, ProtocolError>)
        ensures
            r == Self::parse(buf@),
    {
        let mut r = bytes::Reader::new(buf);
        Ok(
            Self {
                device: Handle::from_raw(r.u64()?),
                size: r.u64()?,
            },
        )
    }
}

/// Response body for [`vk_op::ALLOCATE_MEMORY`](super::vk_op::ALLOCATE_MEMORY).
#[derive(Debug, Clone, Copy, PartialEq, Eq)]
pub struct AllocateMemoryResponse {
    /// Handle naming the newly allocated device memory.
    pub memory: Handle,
}

impl Wire for AllocateMemoryResponse {
    open spec fn bytes(&self) -> Seq<u8> {
        bytes::le_u64(self.memory@)
    }

    open spec fn parse(s: Seq<u8>) -> Result<Self, ProtocolError> {
        if s.len() < 8 {
            Err(ProtocolError::UnexpectedEof)
        } else {
            Ok(
                AllocateMemoryResponse {
                    memory: Handle::of(bytes::u64_at(s, 0)),
                },
            )
        }
    }

    proof fn law_round_trip(&self, rest: Seq<u8>) {
        let s = self.bytes() + rest;
        bytes::lemma_u64_at(s, 0, self.memory@);
    }

    proof fn law_truncated(&self, n: int) {
    }
}

impl CanonicalWire for AllocateMemoryResponse {
    proof fn law_canonical(s: Seq<u8>) {
        if s.len() >= 8 {
            bytes::lemma_le_u64(s, 0);
            assert(s.subrange(0, 8) =~= s.take(8));
        }
    }

    proof fn law_refusal(s: Seq<u8>) {
    }
}

impl AllocateMemoryResponse {
    /// Append the encoded body to `out`.
    pub fn encode(&self, out: &mut Vec<u8>)
        ensures
            final(out)@ == old(out)@ + self.bytes(),
    {
        bytes::put_u64(out, self.memory.raw());
    }

    /// Decode a body.
    pub fn decode(buf: &[u8]) -> (r: Result<Self, ProtocolError>)
        ensures
            r == Self::parse(buf@),
    {
        let mut r = bytes::Reader::new(buf);
        Ok(
            Self {
                memory: Handle::from_raw(r.u64()?),
            },
        )
    }
}

/// Request body for [`vk_op::CREATE_BUFFER`](super::vk_op::CREATE_BUFFER).
#[derive(Debug, Clone, Copy, PartialEq, Eq)]
pub struct CreateBufferRequest {
    /// Handle naming the device the buffer is created on.
    pub device: Handle,
    /// Size of the buffer in bytes.
    pub size: u64,
    /// Buffer usage flag bits.
    pub usage: u32,
}

impl Wire for CreateBufferRequest {
    open spec fn bytes(&self) -> Seq<u8> {
        bytes::le_u64(self.device@) + bytes::le_u64(self.size) + bytes::le_u32(self.usage)
    }

    open spec fn parse(s: Seq<u8>) -> Result<Self, ProtocolError> {
        if s.len() < 20 {
            Err(ProtocolError::UnexpectedEof)
        } else {
            Ok(
                CreateBufferRequest {
                    device: Handle::of(bytes::u64_at(s, 0)),
                    size: bytes::u64_at(s, 8),
                    usage: bytes::u32_at(s, 16),
                },
            )
        }
    }

    proof fn law_round_trip(&self, rest: Seq<u8>) {
        let s = self.bytes() + rest;
        bytes::lemma_u64_at(s, 0, self.device@);
        bytes::lemma_u64_at(s, 8, self.size);
        bytes::lemma_u32_at(s, 16, self.usage);
    }

    proof fn law_truncated(&self, n: int) {
    }
}

impl CanonicalWire for CreateBufferRequest {
    proof fn law_canonical(s: Seq<u8>) {
        if s.len() >= 20 {
            bytes::lemma_le_u64(s, 0);
            bytes::lemma_le_u64(s, 8);
            bytes::lemma_le_u32(s, 16);
            assert(s.subrange(0, 8) + s.subrange(8, 16) + s.subrange(16, 20) =~= s.take(20));
        }
    }

    proof fn law_refusal(s: Seq<u8>) {
    }
}

impl CreateBufferRequest {
    /// Append the encoded body to `out`.
    pub fn encode(&self, out: &mut Vec<u8>)
        ensures
            final(out)@ == old(out)@ + self.bytes(),
    {
        bytes::put_u64(out, self.device.raw());
        bytes::put_u64(out, self.size);
        bytes::put_u32(out, self.usage);
    }

    /// Decode a body.
    pub fn decode(buf: &[u8]) -> (r: Result<Self, ProtocolError>)
        ensures
            r == Self::parse(buf@),
    {
        let mut r = bytes::Reader::new(buf);
        Ok(
            Self {
                device: Handle::from_raw(r.u64()?),
                size: r.u64()?,
                usage: r.u32()?,
            },
        )
    }
}

/// Response body for [`vk_op::CREATE_BUFFER`](super::vk_op::CREATE_BUFFER).
#[derive(Debug, Clone, Copy, PartialEq, Eq)]
pub struct CreateBufferResponse {
    /// Handle naming the newly created buffer.
    pub buffer: Handle,
}

impl Wire for CreateBufferResponse {
    open spec fn bytes(&self) -> Seq<u8> {
        bytes::le_u64(self.buffer@)
    }

    open spec fn parse(s: Seq<u8>) -> Result<Self, ProtocolError> {
        if s.len() < 8 {
            Err(ProtocolError::UnexpectedEof)
        } else {
            Ok(
                CreateBufferResponse {
                    buffer: Handle::of(bytes::u64_at(s, 0)),
                },
            )
        }
    }

    proof fn law_round_trip(&self, rest: Seq<u8>) {
        let s = self.bytes() + rest;
        bytes::lemma_u64_at(s, 0, self.buffer@);
    }

    proof fn law_truncated(&self, n: int) {
    }
}

impl CanonicalWire for CreateBufferResponse {
    proof fn law_canonical(s: Seq<u8>) {
        if s.len() >= 8 {
            bytes::lemma_le_u64(s, 0);
            assert(s.subrange(0, 8) =~= s.take(8));
        }
    }

    proof fn law_refusal(s: Seq<u8>) {
    }
}

impl CreateBufferResponse {
    /// Append the encoded body to `out`.
    pub fn encode(&self, out: &mut Vec<u8>)
        ensures
            final(out)@ == old(out)@ + self.bytes(),
    {
        bytes::put_u64(out, self.buffer.raw());
    }

    /// Decode a body.
    pub fn decode(buf: &[u8]) -> (r: Result<Self, ProtocolError>)
        ensures
            r == Self::parse(buf@),
    {
        let mut r = bytes::Reader::new(buf);
        Ok(
            Self {
                buffer: Handle::from_raw(r.u64()?),
            },
        )
    }
}

/// Request body for
/// [`vk_op::BIND_BUFFER_MEMORY`](super::vk_op::BIND_BUFFER_MEMORY).
///
/// The reply is an empty (ack) body, so there is no response struct.
#[derive(Debug, Clone, Copy, PartialEq, Eq)]
pub struct BindBufferMemoryRequest {
    /// Handle naming the buffer being bound.
    pub buffer: Handle,
    /// Handle naming the device memory bound to the buffer.
    pub memory: Handle,
    /// Offset into the memory at which the buffer is bound.
    pub offset: u64,
}

impl Wire for BindBufferMemoryRequest {
    open spec fn bytes(&self) -> Seq<u8> {
        bytes::le_u64(self.buffer@) + bytes::le_u64(self.memory@)
            + bytes::le_u64(self.offset)
    }

    open spec fn parse(s: Seq<u8>) -> Result<Self, ProtocolError> {
        if s.len() < 24 {
            Err(ProtocolError::UnexpectedEof)
        } else {
            Ok(
                BindBufferMemoryRequest {
                    buffer: Handle::of(bytes::u64_at(s, 0)),
                    memory: Handle::of(bytes::u64_at(s, 8)),
                    offset: bytes::u64_at(s, 16),
                },
            )
        }
    }

    proof fn law_round_trip(&self, rest: Seq<u8>) {
        let s = self.bytes() + rest;
        bytes::lemma_u64_at(s, 0, self.buffer@);
        bytes::lemma_u64_at(s, 8, self.memory@);
        bytes::lemma_u64_at(s, 16, self.offset);
    }

    proof fn law_truncated(&self, n: int) {
    }
}

impl CanonicalWire for BindBufferMemoryRequest {
    proof fn law_canonical(s: Seq<u8>) {
        if s.len() >= 24 {
            bytes::lemma_le_u64(s, 0);
            bytes::lemma_le_u64(s, 8);
            bytes::lemma_le_u64(s, 16);
            assert(s.subrange(0, 8) + s.subrange(8, 16) + s.subrange(16, 24) =~= s.take(24));
        }
    }

    proof fn law_refusal(s: Seq<u8>) {
    }
}

impl BindBufferMemoryRequest {
    /// Append the encoded body to `out`.
    pub fn encode(&self, out: &mut Vec<u8>)
        ensures
            final(out)@ == old(out)@ + self.bytes(),
    {
        bytes::put_u64(out, self.buffer.raw());
        bytes::put_u64(out, self.memory.raw());
        bytes::put_u64(out, self.offset);
    }

    /// Decode a body.
    pub fn decode(buf: &[u8]) -> (r: Result<Self, ProtocolError>)
        ensures
            r == Self::parse(buf@),
    {
        let mut r = bytes::Reader::new(buf);
        Ok(
            Self {
                buffer: Handle::from_raw(r.u64()?),
                memory: Handle::from_raw(r.u64()?),
                offset: r.u64()?,
            },
        )
    }
}

/// Request body for
/// [`vk_op::CREATE_COMMAND_POOL`](super::vk_op::CREATE_COMMAND_POOL).
#[derive(Debug, Clone, Copy, PartialEq, Eq)]
pub struct CreateCommandPoolRequest {
    /// Handle naming the device the command pool is created on.
    pub device: Handle,
    /// Index of the queue family the pool's buffers are submitted to.
    pub queue_family_index: u32,
}

impl Wire for CreateCommandPoolRequest {
    open spec fn bytes(&self) -> Seq<u8> {
        bytes::le_u64(self.device@) + bytes::le_u32(self.queue_family_index)
    }

    open spec fn parse(s: Seq<u8>) -> Result<Self, ProtocolError> {
        if s.len() < 12 {
            Err(ProtocolError::UnexpectedEof)
        } else {
            Ok(
                CreateCommandPoolRequest {
                    device: Handle::of(bytes::u64_at(s, 0)),
                    queue_family_index: bytes::u32_at(s, 8),
                },
            )
        }
    }

    proof fn law_round_trip(&self, rest: Seq<u8>) {
        let s = self.bytes() + rest;
        bytes::lemma_u64_at(s, 0, self.device@);
        bytes::lemma_u32_at(s, 8, self.queue_family_index);
    }

    proof fn law_truncated(&self, n: int) {
    }
}

impl CanonicalWire for CreateCommandPoolRequest {
    proof fn law_canonical(s: Seq<u8>) {
        if s.len() >= 12 {
            bytes::lemma_le_u64(s, 0);
            bytes::lemma_le_u32(s, 8);
            assert(s.subrange(0, 8) + s.subrange(8, 12) =~= s.take(12));
        }
    }

    proof fn law_refusal(s: Seq<u8>) {
    }
}

impl CreateCommandPoolRequest {
    /// Append the encoded body to `out`.
    pub fn encode(&self, out: &mut Vec<u8>)
        ensures
            final(out)@ == old(out)@ + self.bytes(),
    {
        bytes::put_u64(out, self.device.raw());
        bytes::put_u32(out, self.queue_family_index);
    }

    /// Decode a body.
    pub fn decode(buf: &[u8]) -> (r: Result<Self, ProtocolError>)
        ensures
            r == Self::parse(buf@),
    {
        let mut r = bytes::Reader::new(buf);
        Ok(
            Self {
                device: Handle::from_raw(r.u64()?),
                queue_family_index: r.u32()?,
            },
        )
    }
}

/// Response body for
/// [`vk_op::CREATE_COMMAND_POOL`](super::vk_op::CREATE_COMMAND_POOL).
#[derive(Debug, Clone, Copy, PartialEq, Eq)]
pub struct CreateCommandPoolResponse {
    /// Handle naming the newly created command pool.
    pub pool: Handle,
}

impl Wire for CreateCommandPoolResponse {
    open spec fn bytes(&self) -> Seq<u8> {
        bytes::le_u64(self.pool@)
    }

    open spec fn parse(s: Seq<u8>) -> Result<Self, ProtocolError> {
        if s.len() < 8 {
            Err(ProtocolError::UnexpectedEof)
        } else {
            Ok(
                CreateCommandPoolResponse {
                    pool: Handle::of(bytes::u64_at(s, 0)),
                },
            )
        }
    }

    proof fn law_round_trip(&self, rest: Seq<u8>) {
        let s = self.bytes() + rest;
        bytes::lemma_u64_at(s, 0, self.pool@);
    }

    proof fn law_truncated(&self, n: int) {
    }
}

impl CanonicalWire for CreateCommandPoolResponse {
    proof fn law_canonical(s: Seq<u8>) {
        if s.len() >= 8 {
            bytes::lemma_le_u64(s, 0);
            assert(s.subrange(0, 8) =~= s.take(8));
        }
    }

    proof fn law_refusal(s: Seq<u8>) {
    }
}

impl CreateCommandPoolResponse {
    /// Append the encoded body to `out`.
    pub fn encode(&self, out: &mut Vec<u8>)
        ensures
            final(out)@ == old(out)@ + self.bytes(),
    {
        bytes::put_u64(out, self.pool.raw());
    }

    /// Decode a body.
    pub fn decode(buf: &[u8]) -> (r: Result<Self, ProtocolError>)
        ensures
            r == Self::parse(buf@),
    {
        let mut r = bytes::Reader::new(buf);
        Ok(
            Self {
                pool: Handle::from_raw(r.u64()?),
            },
        )
    }
}

/// Request body for
/// [`vk_op::ALLOCATE_COMMAND_BUFFER`](super::vk_op::ALLOCATE_COMMAND_BUFFER).
#[derive(Debug, Clone, Copy, PartialEq, Eq)]
pub struct AllocateCommandBufferRequest {
    /// Handle naming the command pool the buffer is allocated from.
    pub pool: Handle,
}

impl Wire for AllocateCommandBufferRequest {
    open spec fn bytes(&self) -> Seq<u8> {
        bytes::le_u64(self.pool@)
    }

    open spec fn parse(s: Seq<u8>) -> Result<Self, ProtocolError> {
        if s.len() < 8 {
            Err(ProtocolError::UnexpectedEof)
        } else {
            Ok(
                AllocateCommandBufferRequest {
                    pool: Handle::of(bytes::u64_at(s, 0)),
                },
            )
        }
    }

    proof fn law_round_trip(&self, rest: Seq<u8>) {
        let s = self.bytes() + rest;
        bytes::lemma_u64_at(s, 0, self.pool@);
    }

    proof fn law_truncated(&self, n: int) {
    }
}

impl CanonicalWire for AllocateCommandBufferRequest {
    proof fn law_canonical(s: Seq<u8>) {
        if s.len() >= 8 {
            bytes::lemma_le_u64(s, 0);
            assert(s.subrange(0, 8) =~= s.take(8));
        }
    }

    proof fn law_refusal(s: Seq<u8>) {
    }
}

impl AllocateCommandBufferRequest {
    /// Append the encoded body to `out`.
    pub fn encode(&self, out: &mut Vec<u8>)
        ensures
            final(out)@ == old(out)@ + self.bytes(),
    {
        bytes::put_u64(out, self.pool.raw());
    }

    /// Decode a body.
    pub fn decode(buf: &[u8]) -> (r: Result<Self, ProtocolError>)
        ensures
            r == Self::parse(buf@),
    {
        let mut r = bytes::Reader::new(buf);
        Ok(
            Self {
                pool: Handle::from_raw(r.u64()?),
            },
        )
    }
}

/// Response body for
/// [`vk_op::ALLOCATE_COMMAND_BUFFER`](super::vk_op::ALLOCATE_COMMAND_BUFFER).
#[derive(Debug, Clone, Copy, PartialEq, Eq)]
pub struct AllocateCommandBufferResponse {
    /// Handle naming the newly allocated command buffer.
    pub command_buffer: Handle,
}

impl Wire for AllocateCommandBufferResponse {
    open spec fn bytes(&self) -> Seq<u8> {
        bytes::le_u64(self.command_buffer@)
    }

    open spec fn parse(s: Seq<u8>) -> Result<Self, ProtocolError> {
        if s.len() < 8 {
            Err(ProtocolError::UnexpectedEof)
        } else {
            Ok(
                AllocateCommandBufferResponse {
                    command_buffer: Handle::of(bytes::u64_at(s, 0)),
                },
            )
        }
    }

    proof fn law_round_trip(&self, rest: Seq<u8>) {
        let s = self.bytes() + rest;
        bytes::lemma_u64_at(s, 0, self.command_buffer@);
    }

    proof fn law_truncated(&self, n: int) {
    }
}

impl CanonicalWire for AllocateCommandBufferResponse {
    proof fn law_canonical(s: Seq<u8>) {
        if s.len() >= 8 {
            bytes::lemma_le_u64(s, 0);
            assert(s.subrange(0, 8) =~= s.take(8));
        }
    }

    proof fn law_refusal(s: Seq<u8>) {
    }
}

impl AllocateCommandBufferResponse {
    /// Append the encoded body to `out`.
    pub fn encode(&self, out: &mut Vec<u8>)
        ensures
            final(out)@ == old(out)@ + self.bytes(),
    {
        bytes::put_u64(out, self.command_buffer.raw());
    }

    /// Decode a body.
    pub fn decode(buf: &[u8]) -> (r: Result<Self, ProtocolError>)
        ensures
            r == Self::parse(buf@),
    {
        let mut r = bytes::Reader::new(buf);
        Ok(
            Self {
                command_buffer: Handle::from_raw(r.u64()?),
            },
        )
    }
}

/// Request body for [`vk_op::QUEUE_SUBMIT`](super::vk_op::QUEUE_SUBMIT).
///
/// The reply is an empty (ack) body, so there is no response struct.
#[derive(Debug, Clone, Copy, PartialEq, Eq)]
pub struct QueueSubmitRequest {
    /// Handle naming the queue the command buffer is submitted to.
    pub queue: Handle,
    /// Handle naming the command buffer being submitted.
    pub command_buffer: Handle,
}

impl Wire for QueueSubmitRequest {
    open spec fn bytes(&self) -> Seq<u8> {
        bytes::le_u64(self.queue@) + bytes::le_u64(self.command_buffer@)
    }

    open spec fn parse(s: Seq<u8>) -> Result<Self, ProtocolError> {
        if s.len() < 16 {
            Err(ProtocolError::UnexpectedEof)
        } else {
            Ok(
                QueueSubmitRequest {
                    queue: Handle::of(bytes::u64_at(s, 0)),
                    command_buffer: Handle::of(bytes::u64_at(s, 8)),
                },
            )
        }
    }

    proof fn law_round_trip(&self, rest: Seq<u8>) {
        let s = self.bytes() + rest;
        bytes::lemma_u64_at(s, 0, self.queue@);
        bytes::lemma_u64_at(s, 8, self.command_buffer@);
    }

    proof fn law_truncated(&self, n: int) {
    }
}

impl CanonicalWire for QueueSubmitRequest {
    proof fn law_canonical(s: Seq<u8>) {
        if s.len() >= 16 {
            bytes::lemma_le_u64(s, 0);
            bytes::lemma_le_u64(s, 8);
            assert(s.subrange(0, 8) + s.subrange(8, 16) =~= s.take(16));
        }
    }

    proof fn law_refusal(s: Seq<u8>) {
    }
}

impl QueueSubmitRequest {
    /// Append the encoded body to `out`.
    pub fn encode(&self, out: &mut Vec<u8>)
        ensures
            final(out)@ == old(out)@ + self.bytes(),
    {
        bytes::put_u64(out, self.queue.raw());
        bytes::put_u64(out, self.command_buffer.raw());
    }

    /// Decode a body.
    pub fn decode(buf: &[u8]) -> (r: Result<Self, ProtocolError>)
        ensures
            r == Self::parse(buf@),
    {
        let mut r = bytes::Reader::new(buf);
        Ok(
            Self {
                queue: Handle::from_raw(r.u64()?),
                command_buffer: Handle::from_raw(r.u64()?),
            },
        )
    }
}

/// Request body for
/// [`vk_op::CMD_COPY_BUFFER`](super::vk_op::CMD_COPY_BUFFER).
///
/// This records into a command buffer; the reply is an empty (ack) body, so
/// there is no response struct.
#[derive(Debug, Clone, Copy, PartialEq, Eq)]
pub struct CmdCopyBufferRequest {
    /// Handle naming the command buffer the copy is recorded into.
    pub command_buffer: Handle,
    /// Handle naming the source buffer copied from.
    pub src: Handle,
    /// Handle naming the destination buffer copied into.
    pub dst: Handle,
    /// Number of bytes copied.
    pub size: u64,
}

impl Wire for CmdCopyBufferRequest {
    open spec fn bytes(&self) -> Seq<u8> {
        bytes::le_u64(self.command_buffer@) + bytes::le_u64(self.src@)
            + bytes::le_u64(self.dst@) + bytes::le_u64(self.size)
    }

    open spec fn parse(s: Seq<u8>) -> Result<Self, ProtocolError> {
        if s.len() < 32 {
            Err(ProtocolError::UnexpectedEof)
        } else {
            Ok(
                CmdCopyBufferRequest {
                    command_buffer: Handle::of(bytes::u64_at(s, 0)),
                    src: Handle::of(bytes::u64_at(s, 8)),
                    dst: Handle::of(bytes::u64_at(s, 16)),
                    size: bytes::u64_at(s, 24),
                },
            )
        }
    }

    proof fn law_round_trip(&self, rest: Seq<u8>) {
        let s = self.bytes() + rest;
        bytes::lemma_u64_at(s, 0, self.command_buffer@);
        bytes::lemma_u64_at(s, 8, self.src@);
        bytes::lemma_u64_at(s, 16, self.dst@);
        bytes::lemma_u64_at(s, 24, self.size);
    }

    proof fn law_truncated(&self, n: int) {
    }
}

impl CanonicalWire for CmdCopyBufferRequest {
    proof fn law_canonical(s: Seq<u8>) {
        if s.len() >= 32 {
            bytes::lemma_le_u64(s, 0);
            bytes::lemma_le_u64(s, 8);
            bytes::lemma_le_u64(s, 16);
            bytes::lemma_le_u64(s, 24);
            assert(s.subrange(0, 8) + s.subrange(8, 16) + s.subrange(16, 24)
                + s.subrange(24, 32) =~= s.take(32));
        }
    }

    proof fn law_refusal(s: Seq<u8>) {
    }
}

impl CmdCopyBufferRequest {
    /// Append the encoded body to `out`.
    pub fn encode(&self, out: &mut Vec<u8>)
        ensures
            final(out)@ == old(out)@ + self.bytes(),
    {
        bytes::put_u64(out, self.command_buffer.raw());
        bytes::put_u64(out, self.src.raw());
        bytes::put_u64(out, self.dst.raw());
        bytes::put_u64(out, self.size);
    }

    /// Decode a body.
    pub fn decode(buf: &[u8]) -> (r: Result<Self, ProtocolError>)
        ensures
            r == Self::parse(buf@),
    {
        let mut r = bytes::Reader::new(buf);
        Ok(
            Self {
                command_buffer: Handle::from_raw(r.u64()?),
                src: Handle::from_raw(r.u64()?),
                dst: Handle::from_raw(r.u64()?),
                size: r.u64()?,
            },
        )
    }
}

/// Request body for [`vk_op::CMD_DRAW`](super::vk_op::CMD_DRAW).
///
/// This records into a command buffer; the reply is an empty (ack) body, so
/// there is no response struct.
#[derive(Debug, Clone, Copy, PartialEq, Eq)]
pub struct CmdDrawRequest {
    /// Handle naming the command buffer the draw is recorded into.
    pub command_buffer: Handle,
    /// Number of vertices to draw.
    pub vertex_count: u32,
    /// Number of instances to draw.
    pub instance_count: u32,
}

impl Wire for CmdDrawRequest {
    open spec fn bytes(&self) -> Seq<u8> {
        bytes::le_u64(self.command_buffer@) + bytes::le_u32(self.vertex_count)
            + bytes::le_u32(self.instance_count)
    }

    open spec fn parse(s: Seq<u8>) -> Result<Self, ProtocolError> {
        if s.len() < 16 {
            Err(ProtocolError::UnexpectedEof)
        } else {
            Ok(
                CmdDrawRequest {
                    command_buffer: Handle::of(bytes::u64_at(s, 0)),
                    vertex_count: bytes::u32_at(s, 8),
                    instance_count: bytes::u32_at(s, 12),
                },
            )
        }
    }

    proof fn law_round_trip(&self, rest: Seq<u8>) {
        let s = self.bytes() + rest;
        bytes::lemma_u64_at(s, 0, self.command_buffer@);
        bytes::lemma_u32_at(s, 8, self.vertex_count);
        bytes::lemma_u32_at(s, 12, self.instance_count);
    }

    proof fn law_truncated(&self, n: int) {
    }
}

impl CanonicalWire for CmdDrawRequest {
    proof fn law_canonical(s: Seq<u8>) {
        if s.len() >= 16 {
            bytes::lemma_le_u64(s, 0);
            bytes::lemma_le_u32(s, 8);
            bytes::lemma_le_u32(s, 12);
            assert(s.subrange(0, 8) + s.subrange(8, 12) + s.subrange(12, 16) =~= s.take(16));
        }
    }

    proof fn law_refusal(s: Seq<u8>) {
    }
}

impl CmdDrawRequest {
    /// Append the encoded body to `out`.
    pub fn encode(&self, out: &mut Vec<u8>)
        ensures
            final(out)@ == old(out)@ + self.bytes(),
    {
        bytes::put_u64(out, self.command_buffer.raw());
        bytes::put_u32(out, self.vertex_count);
        bytes::put_u32(out, self.instance_count);
    }

    /// Decode a body.
    pub fn decode(buf: &[u8]) -> (r: Result<Self, ProtocolError>)
        ensures
            r == Self::parse(buf@),
    {
        let mut r = bytes::Reader::new(buf);
        Ok(
            Self {
                command_buffer: Handle::from_raw(r.u64()?),
                vertex_count: r.u32()?,
                instance_count: r.u32()?,
            },
        )
    }
}

/// Request body for [`vk_op::DESTROY_BUFFER`](super::vk_op::DESTROY_BUFFER).
#[derive(Debug, Clone, Copy, PartialEq, Eq)]
pub struct DestroyBufferRequest {
    /// Buffer to destroy.
    pub buffer: Handle,
}

impl Wire for DestroyBufferRequest {
    open spec fn bytes(&self) -> Seq<u8> {
        bytes::le_u64(self.buffer@)
    }

    open spec fn parse(s: Seq<u8>) -> Result<Self, ProtocolError> {
        if s.len() < 8 {
            Err(ProtocolError::UnexpectedEof)
        } else {
            Ok(
                DestroyBufferRequest {
                    buffer: Handle::of(bytes::u64_at(s, 0)),
                },
            )
        }
    }

    proof fn law_round_trip(&self, rest: Seq<u8>) {
        let s = self.bytes() + rest;
        bytes::lemma_u64_at(s, 0, self.buffer@);
    }

    proof fn law_truncated(&self, n: int) {
    }
}

impl CanonicalWire for DestroyBufferRequest {
    proof fn law_canonical(s: Seq<u8>) {
        if s.len() >= 8 {
            bytes::lemma_le_u64(s, 0);
            assert(s.subrange(0, 8) =~= s.take(8));
        }
    }

    proof fn law_refusal(s: Seq<u8>) {
    }
}

impl DestroyBufferRequest {
    /// Append the encoded body to `out`.
    pub fn encode(&self, out: &mut Vec<u8>)
        ensures
            final(out)@ == old(out)@ + self.bytes(),
    {
        bytes::put_u64(out, self.buffer.raw());
    }

    /// Decode a body.
    pub fn decode(buf: &[u8]) -> (r: Result<Self, ProtocolError>)
        ensures
            r == Self::parse(buf@),
    {
        let mut r = bytes::Reader::new(buf);
        Ok(
            Self {
                buffer: Handle::from_raw(r.u64()?),
            },
        )
    }
}

/// Request body for [`vk_op::FREE_MEMORY`](super::vk_op::FREE_MEMORY).
#[derive(Debug, Clone, Copy, PartialEq, Eq)]
pub struct FreeMemoryRequest {
    /// Device memory to free.
    pub memory: Handle,
}

impl Wire for FreeMemoryRequest {
    open spec fn bytes(&self) -> Seq<u8> {
        bytes::le_u64(self.memory@)
    }

    open spec fn parse(s: Seq<u8>) -> Result<Self, ProtocolError> {
        if s.len() < 8 {
            Err(ProtocolError::UnexpectedEof)
        } else {
            Ok(
                FreeMemoryRequest {
                    memory: Handle::of(bytes::u64_at(s, 0)),
                },
            )
        }
    }

    proof fn law_round_trip(&self, rest: Seq<u8>) {
        let s = self.bytes() + rest;
        bytes::lemma_u64_at(s, 0, self.memory@);
    }

    proof fn law_truncated(&self, n: int) {
    }
}

impl CanonicalWire for FreeMemoryRequest {
    proof fn law_canonical(s: Seq<u8>) {
        if s.len() >= 8 {
            bytes::lemma_le_u64(s, 0);
            assert(s.subrange(0, 8) =~= s.take(8));
        }
    }

    proof fn law_refusal(s: Seq<u8>) {
    }
}

impl FreeMemoryRequest {
    /// Append the encoded body to `out`.
    pub fn encode(&self, out: &mut Vec<u8>)
        ensures
            final(out)@ == old(out)@ + self.bytes(),
    {
        bytes::put_u64(out, self.memory.raw());
    }

    /// Decode a body.
    pub fn decode(buf: &[u8]) -> (r: Result<Self, ProtocolError>)
        ensures
            r == Self::parse(buf@),
    {
        let mut r = bytes::Reader::new(buf);
        Ok(
            Self {
                memory: Handle::from_raw(r.u64()?),
            },
        )
    }
}

/// Request body for [`vk_op::DESTROY_COMMAND_POOL`](super::vk_op::DESTROY_COMMAND_POOL).
#[derive(Debug, Clone, Copy, PartialEq, Eq)]
pub struct DestroyCommandPoolRequest {
    /// Command pool to destroy.
    pub pool: Handle,
}

impl Wire for DestroyCommandPoolRequest {
    open spec fn bytes(&self) -> Seq<u8> {
        bytes::le_u64(self.pool@)
    }

    open spec fn parse(s: Seq<u8>) -> Result<Self, ProtocolError> {
        if s.len() < 8 {
            Err(ProtocolError::UnexpectedEof)
        } else {
            Ok(
                DestroyCommandPoolRequest {
                    pool: Handle::of(bytes::u64_at(s, 0)),
                },
            )
        }
    }

    proof fn law_round_trip(&self, rest: Seq<u8>) {
        let s = self.bytes() + rest;
        bytes::lemma_u64_at(s, 0, self.pool@);
    }

    proof fn law_truncated(&self, n: int) {
    }
}

impl CanonicalWire for DestroyCommandPoolRequest {
    proof fn law_canonical(s: Seq<u8>) {
        if s.len() >= 8 {
            bytes::lemma_le_u64(s, 0);
            assert(s.subrange(0, 8) =~= s.take(8));
        }
    }

    proof fn law_refusal(s: Seq<u8>) {
    }
}

impl DestroyCommandPoolRequest {
    /// Append the encoded body to `out`.
    pub fn encode(&self, out: &mut Vec<u8>)
        ensures
            final(out)@ == old(out)@ + self.bytes(),
    {
        bytes::put_u64(out, self.pool.raw());
    }

    /// Decode a body.
    pub fn decode(buf: &[u8]) -> (r: Result<Self, ProtocolError>)
        ensures
            r == Self::parse(buf@),
    {
        let mut r = bytes::Reader::new(buf);
        Ok(
            Self {
                pool: Handle::from_raw(r.u64()?),
            },
        )
    }
}

/// On the wire a [`CreateInstanceRequest`] is `app_api_version` in 4 bytes, and
/// nothing else.
pub proof fn law_create_instance_request_layout(m: CreateInstanceRequest)
    ensures
        m.bytes().len() == 4,
        bytes::u32_at(m.bytes(), 0) == m.app_api_version,
{
    m.law_whole();
}

/// On the wire a [`CreateInstanceResponse`] is `instance` in 8 bytes, and nothing
/// else.
pub proof fn law_create_instance_response_layout(m: CreateInstanceResponse)
    ensures
        m.bytes().len() == 8,
        bytes::u64_at(m.bytes(), 0) == m.instance@,
{
    m.law_whole();
}

/// On the wire an [`EnumeratePhysicalDevicesRequest`] is `instance` in 8 bytes, and
/// nothing else.
pub proof fn law_enumerate_physical_devices_request_layout(m: EnumeratePhysicalDevicesRequest)
    ensures
        m.bytes().len() == 8,
        bytes::u64_at(m.bytes(), 0) == m.instance@,
{
    m.law_whole();
}

/// On the wire a [`CreateDeviceRequest`] is `physical_device` in 8 bytes, and
/// nothing else.
pub proof fn law_create_device_request_layout(m: CreateDeviceRequest)
    ensures
        m.bytes().len() == 8,
        bytes::u64_at(m.bytes(), 0) == m.physical_device@,
{
    m.law_whole();
}

/// On the wire a [`CreateDeviceResponse`] is `device` in 8 bytes, and nothing else.
pub proof fn law_create_device_response_layout(m: CreateDeviceResponse)
    ensures
        m.bytes().len() == 8,
        bytes::u64_at(m.bytes(), 0) == m.device@,
{
    m.law_whole();
}

/// On the wire a [`GetDeviceQueueRequest`] is `device` in 8 bytes, then
/// `queue_family_index` in 4 bytes, then `queue_index` in 4 bytes, and nothing
/// else.
pub proof fn law_get_device_queue_request_layout(m: GetDeviceQueueRequest)
    ensures
        m.bytes().len() == 16,
        bytes::u64_at(m.bytes(), 0) == m.device@,
        bytes::u32_at(m.bytes(), 8) == m.queue_family_index,
        bytes::u32_at(m.bytes(), 12) == m.queue_index,
{
    m.law_whole();
}

/// On the wire a [`GetDeviceQueueResponse`] is `queue` in 8 bytes, and nothing
/// else.
pub proof fn law_get_device_queue_response_layout(m: GetDeviceQueueResponse)
    ensures
        m.bytes().len() == 8,
        bytes::u64_at(m.bytes(), 0) == m.queue@,
{
    m.law_whole();
}

/// On the wire an [`AllocateMemoryRequest`] is `device` in 8 bytes, then `size` in
/// 8 bytes, and nothing else.
pub proof fn law_allocate_memory_request_layout(m: AllocateMemoryRequest)
    ensures
        m.bytes().len() == 16,
        bytes::u64_at(m.bytes(), 0) == m.device@,
        bytes::u64_at(m.bytes(), 8) == m.size,
{
    m.law_whole();
}

/// On the wire an [`AllocateMemoryResponse`] is `memory` in 8 bytes, and nothing
/// else.
pub proof fn law_allocate_memory_response_layout(m: AllocateMemoryResponse)
    ensures
        m.bytes().len() == 8,
        bytes::u64_at(m.bytes(), 0) == m.memory@,
{
    m.law_whole();
}

/// On the wire a [`CreateBufferRequest`] is `device` in 8 bytes, then `size` in 8
/// bytes, then `usage` in 4 bytes, and nothing else.
pub proof fn law_create_buffer_request_layout(m: CreateBufferRequest)
    ensures
        m.bytes().len() == 20,
        bytes::u64_at(m.bytes(), 0) == m.device@,
        bytes::u64_at(m.bytes(), 8) == m.size,
        bytes::u32_at(m.bytes(), 16) == m.usage,
{
    m.law_whole();
}

/// On the wire a [`CreateBufferResponse`] is `buffer` in 8 bytes, and nothing else.
pub proof fn law_create_buffer_response_layout(m: CreateBufferResponse)
    ensures
        m.bytes().len() == 8,
        bytes::u64_at(m.bytes(), 0) == m.buffer@,
{
    m.law_whole();
}

/// On the wire a [`BindBufferMemoryRequest`] is `buffer` in 8 bytes, then `memory`
/// in 8 bytes, then `offset` in 8 bytes, and nothing else.
pub proof fn law_bind_buffer_memory_request_layout(m: BindBufferMemoryRequest)
    ensures
        m.bytes().len() == 24,
        bytes::u64_at(m.bytes(), 0) == m.buffer@,
        bytes::u64_at(m.bytes(), 8) == m.memory@,
        bytes::u64_at(m.bytes(), 16) == m.offset,
{
    m.law_whole();
}

/// On the wire a [`CreateCommandPoolRequest`] is `device` in 8 bytes, then
/// `queue_family_index` in 4 bytes, and nothing else.
pub proof fn law_create_command_pool_request_layout(m: CreateCommandPoolRequest)
    ensures
        m.bytes().len() == 12,
        bytes::u64_at(m.bytes(), 0) == m.device@,
        bytes::u32_at(m.bytes(), 8) == m.queue_family_index,
{
    m.law_whole();
}

/// On the wire a [`CreateCommandPoolResponse`] is `pool` in 8 bytes, and nothing
/// else.
pub proof fn law_create_command_pool_response_layout(m: CreateCommandPoolResponse)
    ensures
        m.bytes().len() == 8,
        bytes::u64_at(m.bytes(), 0) == m.pool@,
{
    m.law_whole();
}

/// On the wire an [`AllocateCommandBufferRequest`] is `pool` in 8 bytes, and
/// nothing else.
pub proof fn law_allocate_command_buffer_request_layout(m: AllocateCommandBufferRequest)
    ensures
        m.bytes().len() == 8,
        bytes::u64_at(m.bytes(), 0) == m.pool@,
{
    m.law_whole();
}

/// On the wire an [`AllocateCommandBufferResponse`] is `command_buffer` in 8 bytes,
/// and nothing else.
pub proof fn law_allocate_command_buffer_response_layout(m: AllocateCommandBufferResponse)
    ensures
        m.bytes().len() == 8,
        bytes::u64_at(m.bytes(), 0) == m.command_buffer@,
{
    m.law_whole();
}

/// On the wire a [`QueueSubmitRequest`] is `queue` in 8 bytes, then
/// `command_buffer` in 8 bytes, and nothing else.
pub proof fn law_queue_submit_request_layout(m: QueueSubmitRequest)
    ensures
        m.bytes().len() == 16,
        bytes::u64_at(m.bytes(), 0) == m.queue@,
        bytes::u64_at(m.bytes(), 8) == m.command_buffer@,
{
    m.law_whole();
}

/// On the wire a [`CmdCopyBufferRequest`] is `command_buffer` in 8 bytes, then
/// `src` in 8 bytes, then `dst` in 8 bytes, then `size` in 8 bytes, and nothing
/// else.
pub proof fn law_cmd_copy_buffer_request_layout(m: CmdCopyBufferRequest)
    ensures
        m.bytes().len() == 32,
        bytes::u64_at(m.bytes(), 0) == m.command_buffer@,
        bytes::u64_at(m.bytes(), 8) == m.src@,
        bytes::u64_at(m.bytes(), 16) == m.dst@,
        bytes::u64_at(m.bytes(), 24) == m.size,
{
    m.law_whole();
}

/// On the wire a [`CmdDrawRequest`] is `command_buffer` in 8 bytes, then
/// `vertex_count` in 4 bytes, then `instance_count` in 4 bytes, and nothing else.
pub proof fn law_cmd_draw_request_layout(m: CmdDrawRequest)
    ensures
        m.bytes().len() == 16,
        bytes::u64_at(m.bytes(), 0) == m.command_buffer@,
        bytes::u32_at(m.bytes(), 8) == m.vertex_count,
        bytes::u32_at(m.bytes(), 12) == m.instance_count,
{
    m.law_whole();
}

/// On the wire a [`DestroyBufferRequest`] is `buffer` in 8 bytes, and nothing else.
pub proof fn law_destroy_buffer_request_layout(m: DestroyBufferRequest)
    ensures
        m.bytes().len() == 8,
        bytes::u64_at(m.bytes(), 0) == m.buffer@,
{
    m.law_whole();
}

/// On the wire a [`FreeMemoryRequest`] is `memory` in 8 bytes, and nothing else.
pub proof fn law_free_memory_request_layout(m: FreeMemoryRequest)
    ensures
        m.bytes().len() == 8,
        bytes::u64_at(m.bytes(), 0) == m.memory@,
{
    m.law_whole();
}

/// On the wire a [`DestroyCommandPoolRequest`] is `pool` in 8 bytes, and nothing
/// else.
pub proof fn law_destroy_command_pool_request_layout(m: DestroyCommandPoolRequest)
    ensures
        m.bytes().len() == 8,
        bytes::u64_at(m.bytes(), 0) == m.pool@,
{
    m.law_whole();
}

/// On the wire a device list is the count in four bytes, then each handle in eight,
/// in order.
pub proof fn law_device_list_layout(devices: Seq<Handle>, i: int)
    requires
        devices.len() < 0x1_0000_0000,
        0 <= i < devices.len(),
    ensures
        device_list_bytes(devices).len() == 4 + 8 * devices.len(),
        bytes::u32_at(device_list_bytes(devices), 0) == devices.len(),
        bytes::u64_at(device_list_bytes(devices), 4 + 8 * i) == devices[i]@,
{
    law_device_list_len(devices);
    law_devices_whole(devices);
    let s = device_list_bytes(devices);
    assert(handles_at(s, 4, bytes::u32_at(s, 0) as nat)[i] == devices[i]);
}

} // verus!
