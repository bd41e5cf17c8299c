//! Vulkan backend dispatch.
//!
//! The Vulkan backend is a pure-Rust **stub**: it tracks object lifetimes in
//! generational handle tables but performs no real driver work. No Vulkan SDK,
//! GPU, or FFI dependency is involved.
use vstd::prelude::*;

use super::backend;
use super::backend::{Answer, Backend, Call, Keeps, Machine};
use crate::handles;
use crate::handles::{HandleTable, TableOp, TableState};
use crate::protocol as proto;
use crate::protocol::vk;
use crate::protocol::vk_op;
use crate::protocol::wire::Wire;

verus! {

broadcast use crate::protocol::bytes::lemma_append_to_empty;

/// Server object kind for a `VkInstance` handle.
pub const KIND_INSTANCE: u8 = 1;

/// Server object kind for a `VkPhysicalDevice` handle.
pub const KIND_PHYSICAL_DEVICE: u8 = 2;

/// Server object kind for a `VkDevice` handle.
pub const KIND_DEVICE: u8 = 3;

/// Server object kind for a `VkQueue` handle.
pub const KIND_QUEUE: u8 = 4;

/// Server object kind for a `VkDeviceMemory` handle.
pub const KIND_DEVICE_MEMORY: u8 = 5;

/// Server object kind for a `VkBuffer` handle.
pub const KIND_BUFFER: u8 = 6;

/// Server-side state tracked for one created `VkInstance`.
#[derive(Debug)]
pub struct InstanceState {
    /// Marks the instance as live; reserved for future per-instance state.
    pub created: bool,
}

/// Server-side state tracked for one minted `VkPhysicalDevice`.
#[derive(Debug)]
pub struct PhysDevState {
    /// The instance handle this physical device was enumerated from. Recorded
    /// for lifetime and ownership checks.
    pub parent: proto::Handle,
}

/// Server-side state tracked for one created `VkDevice`.
#[derive(Debug)]
pub struct DeviceState {
    /// The physical device this logical device was created on.
    pub physical_device: proto::Handle,
}

/// Server-side state tracked for one retrieved `VkQueue`.
#[derive(Debug)]
pub struct QueueState {
    /// The logical device the queue belongs to.
    pub device: proto::Handle,
    /// Queue family the queue was retrieved from.
    pub queue_family_index: u32,
    /// Index of the queue within its family.
    pub queue_index: u32,
}

/// Server-side state tracked for one `VkDeviceMemory` allocation.
#[derive(Debug)]
pub struct MemoryState {
    /// The logical device the allocation was made on.
    pub device: proto::Handle,
    /// Size of the allocation in bytes.
    pub size: u64,
}

/// Server-side state tracked for one `VkBuffer`.
#[derive(Debug)]
pub struct BufferState {
    /// The logical device the buffer was created on.
    pub device: proto::Handle,
    /// Size of the buffer in bytes.
    pub size: u64,
    /// Usage flags of the buffer.
    pub usage: u32,
}

/// Pure-Rust Vulkan backend stub.
///
/// Owns generational handle tables for the Vulkan objects it tracks. It answers
/// [`vk_op::CREATE_INSTANCE`] by minting an instance handle and
/// [`vk_op::ENUMERATE_PHYSICAL_DEVICES`] by minting a single physical-device
/// handle parented to a previously created instance; an enumeration that names
/// no instance (an empty body) lists no device. Logical devices, queues, device
/// memory and buffers are minted on live parents, and
/// [`vk_op::BIND_BUFFER_MEMORY`] is acknowledged for a live buffer and live
/// memory. The real driver bridge lands later; every other Vulkan call, and
/// every call that names a dead object, is reported as
/// [`ProtocolError::UnknownOpcode`](proto::ProtocolError::UnknownOpcode).
pub struct VulkanBackend {
    /// The instances.
    pub instances: HandleTable<InstanceState>,
    /// The physical devices.
    pub physical_devices: HandleTable<PhysDevState>,
    /// The logical devices.
    pub devices: HandleTable<DeviceState>,
    /// The queues.
    pub queues: HandleTable<QueueState>,
    /// The device-memory allocations.
    pub memories: HandleTable<MemoryState>,
    /// The buffers.
    pub buffers: HandleTable<BufferState>,
}

/// What a Vulkan backend holds.
pub ghost struct VulkanState {
    /// The instances.
    pub instances: TableState<InstanceState>,
    /// The physical devices.
    pub physical_devices: TableState<PhysDevState>,
    /// The logical devices.
    pub devices: TableState<DeviceState>,
    /// The queues.
    pub queues: TableState<QueueState>,
    /// The device-memory allocations.
    pub memories: TableState<MemoryState>,
    /// The buffers.
    pub buffers: TableState<BufferState>,
}

impl VulkanState {
    /// The state without objects.
    pub open spec fn empty() -> Self {
        VulkanState {
            instances: TableState::empty(),
            physical_devices: TableState::empty(),
            devices: TableState::empty(),
            queues: TableState::empty(),
            memories: TableState::empty(),
            buffers: TableState::empty(),
        }
    }

    /// Whether `h` names a live instance.
    pub open spec fn has_instance(self, h: proto::Handle) -> bool {
        self.instances.lookup(h) matches Some(state) && state.created
    }
}

impl Machine for VulkanState {
    open spec fn ok(self) -> bool {
        &&& self.instances.inv()
        &&& self.physical_devices.inv()
        &&& self.devices.inv()
        &&& self.queues.inv()
        &&& self.memories.inv()
        &&& self.buffers.inv()
        &&& forall|i: int| #![trigger self.instances.slots[i]]
            0 <= i < self.instances.slots.len() ==> (self.instances.slots[i].value matches Some(state)
                ==> state.created)
    }

    open spec fn step(self, call: Call) -> (Self, Answer) {
        let unknown: (Self, Answer) = (self, Err(proto::ProtocolError::UnknownOpcode(call.opcode)));
        if call.opcode == vk_op::CREATE_INSTANCE {
            match vk::CreateInstanceRequest::parse(call.body) {
                Err(e) => (self, Err(e)),
                Ok(_) => (
                    VulkanState {
                        instances: self.instances.inserted(InstanceState { created: true }),
                        ..self
                    },
                    Ok(
                        (vk::CreateInstanceResponse {
                            instance: self.instances.next_handle(KIND_INSTANCE),
                        }).bytes(),
                    ),
                ),
            }
        } else if call.opcode == vk_op::ENUMERATE_PHYSICAL_DEVICES {
            if call.body.len() == 0 {
                (self, Ok(vk::device_list_bytes(seq![])))
            } else {
                match vk::EnumeratePhysicalDevicesRequest::parse(call.body) {
                    Err(e) => (self, Err(e)),
                    Ok(req) => if self.has_instance(req.instance) {
                        (
                            VulkanState {
                                physical_devices: self.physical_devices.inserted(
                                    PhysDevState { parent: req.instance },
                                ),
                                ..self
                            },
                            Ok(
                                vk::device_list_bytes(
                                    seq![self.physical_devices.next_handle(KIND_PHYSICAL_DEVICE)],
                                ),
                            ),
                        )
                    } else {
                        unknown
                    },
                }
            }
        } else if call.opcode == vk_op::CREATE_DEVICE {
            match vk::CreateDeviceRequest::parse(call.body) {
                Err(e) => (self, Err(e)),
                Ok(req) => if self.physical_devices.lookup(req.physical_device) is Some {
                    (
                        VulkanState {
                            devices: self.devices.inserted(
                                DeviceState { physical_device: req.physical_device },
                            ),
                            ..self
                        },
                        Ok(
                            (vk::CreateDeviceResponse {
                                device: self.devices.next_handle(KIND_DEVICE),
                            }).bytes(),
                        ),
                    )
                } else {
                    unknown
                },
            }
        } else if call.opcode == vk_op::GET_DEVICE_QUEUE {
            match vk::GetDeviceQueueRequest::parse(call.body) {
                Err(e) => (self, Err(e)),
                Ok(req) => if self.devices.lookup(req.device) is Some {
                    (
                        VulkanState {
                            queues: self.queues.inserted(
                                QueueState {
                                    device: req.device,
                                    queue_family_index: req.queue_family_index,
                                    queue_index: req.queue_index,
                                },
                            ),
                            ..self
                        },
                        Ok(
                            (vk::GetDeviceQueueResponse {
                                queue: self.queues.next_handle(KIND_QUEUE),
                            }).bytes(),
                        ),
                    )
                } else {
                    unknown
                },
            }
        } else if call.opcode == vk_op::ALLOCATE_MEMORY {
            match vk::AllocateMemoryRequest::parse(call.body) {
                Err(e) => (self, Err(e)),
                Ok(req) => if self.devices.lookup(req.device) is Some {
                    (
                        VulkanState {
                            memories: self.memories.inserted(
                                MemoryState { device: req.device, size: req.size },
                            ),
                            ..self
                        },
                        Ok(
                            (vk::AllocateMemoryResponse {
                                memory: self.memories.next_handle(KIND_DEVICE_MEMORY),
                            }).bytes(),
                        ),
                    )
                } else {
                    unknown
                },
            }
        } else if call.opcode == vk_op::CREATE_BUFFER {
            match vk::CreateBufferRequest::parse(call.body) {
                Err(e) => (self, Err(e)),
                Ok(req) => if self.devices.lookup(req.device) is Some {
                    (
                        VulkanState {
                            buffers: self.buffers.inserted(
                                BufferState {
                                    device: req.device,
                                    size: req.size,
                                    usage: req.usage,
                                },
                            ),
                            ..self
                        },
                        Ok(
                            (vk::CreateBufferResponse {
                                buffer: self.buffers.next_handle(KIND_BUFFER),
                            }).bytes(),
                        ),
                    )
                } else {
                    unknown
                },
            }
        } else if call.opcode == vk_op::BIND_BUFFER_MEMORY {
            match vk::BindBufferMemoryRequest::parse(call.body) {
                Err(e) => (self, Err(e)),
                Ok(req) => if self.buffers.lookup(req.buffer) is Some && self.memories.lookup(
                    req.memory,
                ) is Some {
                    (self, Ok(seq![]))
                } else {
                    unknown
                },
            }
        } else {
            unknown
        }
    }

    proof fn law_step_keeps(self, call: Call) {
        crate::handles::law_table_keeps(self.instances);
        crate::handles::law_table_keeps(self.physical_devices);
        crate::handles::law_table_keeps(self.devices);
        crate::handles::law_table_keeps(self.queues);
        crate::handles::law_table_keeps(self.memories);
        crate::handles::law_table_keeps(self.buffers);
    }

    proof fn law_refusal_changes_nothing(self, call: Call) {
    }

    proof fn law_req_id_plays_no_part(self, call: Call, req_id: u32) {
    }
}

impl View for VulkanBackend {
    type V = VulkanState;

    open spec fn view(&self) -> VulkanState {
        VulkanState {
            instances: self.instances@,
            physical_devices: self.physical_devices@,
            devices: self.devices@,
            queues: self.queues@,
            memories: self.memories@,
            buffers: self.buffers@,
        }
    }
}

impl VulkanBackend {
    /// Create a new Vulkan backend stub with empty object tables.
    #[must_use]
    pub fn new() -> (backend: Self)
        ensures
            backend.inv(),
            backend@ == VulkanState::empty(),
    {
        Self {
            instances: HandleTable::new(),
            physical_devices: HandleTable::new(),
            devices: HandleTable::new(),
            queues: HandleTable::new(),
            memories: HandleTable::new(),
            buffers: HandleTable::new(),
        }
    }
}

impl Default for VulkanBackend {
    fn default() -> (backend: Self)
        ensures
            backend.inv(),
            backend@ == VulkanState::empty(),
    {
        Self::new()
    }
}

impl Backend for VulkanBackend {
    open spec fn inv(&self) -> bool {
        &&& self.instances.wf()
        &&& self.physical_devices.wf()
        &&& self.devices.wf()
        &&& self.queues.wf()
        &&& self.memories.wf()
        &&& self.buffers.wf()
    }

    open spec fn spec_api(&self) -> proto::ApiId {
        proto::ApiId::Vulkan
    }

    open spec fn answer(&self, past: Seq<Call>, call: Call) -> Answer {
        super::backend::run_answer(self@, past, call)
    }

    fn api(&self) -> (api: proto::ApiId) {
        proto::ApiId::Vulkan
    }

    fn handle(
        &mut self,
        opcode: u32,
        req_id: u32,
        body: &[u8],
    ) -> (r: Result<Vec<u8>, proto::ProtocolError>)
        ensures
            (final(self)@, super::backend::answer_of(r)) == old(self)@.step(
                Call { opcode, req_id, body: body@ },
            ),
    {
        proof {
            super::backend::law_step_then_answer(self@, Call { opcode, req_id, body: body@ });
        }
        // Reject anything outside the Vulkan namespace outright.
        if proto::opcode_api(opcode) != proto::ApiId::Vulkan.to_byte() {
            return Err(proto::ProtocolError::UnknownOpcode(opcode));
        }
        match opcode {
            vk_op::CREATE_INSTANCE => {
                let _req = vk::CreateInstanceRequest::decode(body)?;
                let instance = self.instances.insert(
                    KIND_INSTANCE,
                    InstanceState { created: true },
                );
                let mut out: Vec<u8> = Vec::new();
                (vk::CreateInstanceResponse { instance }).encode(&mut out);
                Ok(out)
            },
            vk_op::ENUMERATE_PHYSICAL_DEVICES => {
                let mut out: Vec<u8> = Vec::new();
                if body.len() == 0 {
                    // No instance is named, so there is none to list devices of.
                    (vk::EnumeratePhysicalDevicesResponse { devices: Vec::new() }).encode(&mut out);
                    return Ok(out);
                }
                let req = vk::EnumeratePhysicalDevicesRequest::decode(body)?;
                // The instance must have been created and still be live on this
                // backend.
                let live: bool = match self.instances.get(req.instance) {
                    Some(state) => state.created,
                    None => false,
                };
                if !live {
                    return Err(proto::ProtocolError::UnknownOpcode(opcode));
                }
                let device = self.physical_devices.insert(
                    KIND_PHYSICAL_DEVICE,
                    PhysDevState { parent: req.instance },
                );
                let devices: Vec<proto::Handle> = vec![device];
                assert(devices@ =~= seq![device]);
                (vk::EnumeratePhysicalDevicesResponse { devices }).encode(&mut out);
                Ok(out)
            },
            vk_op::CREATE_DEVICE => {
                let req = vk::CreateDeviceRequest::decode(body)?;
                if self.physical_devices.get(req.physical_device).is_none() {
                    return Err(proto::ProtocolError::UnknownOpcode(opcode));
                }
                let device = self.devices.insert(
                    KIND_DEVICE,
                    DeviceState { physical_device: req.physical_device },
                );
                let mut out: Vec<u8> = Vec::new();
                (vk::CreateDeviceResponse { device }).encode(&mut out);
                Ok(out)
            },
            vk_op::GET_DEVICE_QUEUE => {
                let req = vk::GetDeviceQueueRequest::decode(body)?;
                if self.devices.get(req.device).is_none() {
                    return Err(proto::ProtocolError::UnknownOpcode(opcode));
                }
                let queue = self.queues.insert(
                    KIND_QUEUE,
                    QueueState {
                        device: req.device,
                        queue_family_index: req.queue_family_index,
                        queue_index: req.queue_index,
                    },
                );
                let mut out: Vec<u8> = Vec::new();
                (vk::GetDeviceQueueResponse { queue }).encode(&mut out);
                Ok(out)
            },
            vk_op::ALLOCATE_MEMORY => {
                let req = vk::AllocateMemoryRequest::decode(body)?;
                if self.devices.get(req.device).is_none() {
                    return Err(proto::ProtocolError::UnknownOpcode(opcode));
                }
                let memory = self.memories.insert(
                    KIND_DEVICE_MEMORY,
                    MemoryState { device: req.device, size: req.size },
                );
                let mut out: Vec<u8> = Vec::new();
                (vk::AllocateMemoryResponse { memory }).encode(&mut out);
                Ok(out)
            },
            vk_op::CREATE_BUFFER => {
                let req = vk::CreateBufferRequest::decode(body)?;
                if self.devices.get(req.device).is_none() {
                    return Err(proto::ProtocolError::UnknownOpcode(opcode));
                }
                let buffer = self.buffers.insert(
                    KIND_BUFFER,
                    BufferState { device: req.device, size: req.size, usage: req.usage },
                );
                let mut out: Vec<u8> = Vec::new();
                (vk::CreateBufferResponse { buffer }).encode(&mut out);
                Ok(out)
            },
            vk_op::BIND_BUFFER_MEMORY => {
                let req = vk::BindBufferMemoryRequest::decode(body)?;
                // Both the buffer and the memory must be live on this backend.
                if self.buffers.get(req.buffer).is_none() || self.memories.get(
                    req.memory,
                ).is_none() {
                    return Err(proto::ProtocolError::UnknownOpcode(opcode));
                }
                // Acknowledge with an empty body.
                Ok(Vec::new())
            },
            // Everything else in the Vulkan namespace is not implemented yet.
            other => Err(proto::ProtocolError::UnknownOpcode(other)),
        }
    }
}

impl Keeps<InstanceState> for VulkanState {
    open spec fn table(self) -> TableState<InstanceState> {
        self.instances
    }

    open spec fn op(self, call: Call) -> TableOp<InstanceState> {
        if call.opcode == vk_op::CREATE_INSTANCE {
            match vk::CreateInstanceRequest::parse(call.body) {
                Ok(_) => TableOp::Insert(InstanceState { created: true }),
                Err(_) => TableOp::Read,
            }
        } else {
            TableOp::Read
        }
    }

    proof fn law_call_is_op(self, call: Call) {
    }
}

impl Keeps<PhysDevState> for VulkanState {
    open spec fn table(self) -> TableState<PhysDevState> {
        self.physical_devices
    }

    open spec fn op(self, call: Call) -> TableOp<PhysDevState> {
        if call.opcode == vk_op::ENUMERATE_PHYSICAL_DEVICES {
            match vk::EnumeratePhysicalDevicesRequest::parse(call.body) {
                Ok(req) => if self.has_instance(req.instance) {
                    TableOp::Insert(PhysDevState { parent: req.instance })
                } else {
                    TableOp::Read
                },
                Err(_) => TableOp::Read,
            }
        } else {
            TableOp::Read
        }
    }

    proof fn law_call_is_op(self, call: Call) {
    }
}

impl Keeps<DeviceState> for VulkanState {
    open spec fn table(self) -> TableState<DeviceState> {
        self.devices
    }

    open spec fn op(self, call: Call) -> TableOp<DeviceState> {
        if call.opcode == vk_op::CREATE_DEVICE {
            match vk::CreateDeviceRequest::parse(call.body) {
                Ok(req) => if self.physical_devices.lookup(req.physical_device) is Some {
                    TableOp::Insert(DeviceState { physical_device: req.physical_device })
                } else {
                    TableOp::Read
                },
                Err(_) => TableOp::Read,
            }
        } else {
            TableOp::Read
        }
    }

    proof fn law_call_is_op(self, call: Call) {
    }
}

impl Keeps<QueueState> for VulkanState {
    open spec fn table(self) -> TableState<QueueState> {
        self.queues
    }

    open spec fn op(self, call: Call) -> TableOp<QueueState> {
        if call.opcode == vk_op::GET_DEVICE_QUEUE {
            match vk::GetDeviceQueueRequest::parse(call.body) {
                Ok(req) => if self.devices.lookup(req.device) is Some {
                    TableOp::Insert(
                        QueueState {
                            device: req.device,
                            queue_family_index: req.queue_family_index,
                            queue_index: req.queue_index,
                        },
                    )
                } else {
                    TableOp::Read
                },
                Err(_) => TableOp::Read,
            }
        } else {
            TableOp::Read
        }
    }

    proof fn law_call_is_op(self, call: Call) {
    }
}

impl Keeps<MemoryState> for VulkanState {
    open spec fn table(self) -> TableState<MemoryState> {
        self.memories
    }

    open spec fn op(self, call: Call) -> TableOp<MemoryState> {
        if call.opcode == vk_op::ALLOCATE_MEMORY {
            match vk::AllocateMemoryRequest::parse(call.body) {
                Ok(req) => if self.devices.lookup(req.device) is Some {
                    TableOp::Insert(MemoryState { device: req.device, size: req.size })
                } else {
                    TableOp::Read
                },
                Err(_) => TableOp::Read,
            }
        } else {
            TableOp::Read
        }
    }

    proof fn law_call_is_op(self, call: Call) {
    }
}

impl Keeps<BufferState> for VulkanState {
    open spec fn table(self) -> TableState<BufferState> {
        self.buffers
    }

    open spec fn op(self, call: Call) -> TableOp<BufferState> {
        if call.opcode == vk_op::CREATE_BUFFER {
            match vk::CreateBufferRequest::parse(call.body) {
                Ok(req) => if self.devices.lookup(req.device) is Some {
                    TableOp::Insert(
                        BufferState { device: req.device, size: req.size, usage: req.usage },
                    )
                } else {
                    TableOp::Read
                },
                Err(_) => TableOp::Read,
            }
        } else {
            TableOp::Read
        }
    }

    proof fn law_call_is_op(self, call: Call) {
    }
}

/// The history of the instances: a call has made the object of a handle if and only
/// if it was a [`vk_op::CREATE_INSTANCE`] answered with a handle of the same slot
/// and generation, and no call takes one away.
pub proof fn law_instances_history(past: Seq<Call>, i: int, h: proto::Handle)
    ensures
        backend::makes::<InstanceState, VulkanState>(VulkanState::empty(), past, i, h) <==> {
            &&& 0 <= i < past.len()
            &&& past[i].opcode == vk_op::CREATE_INSTANCE
            &&& exists|g: proto::Handle| #[trigger]
                handles::same_object(g, h) && backend::run_answer(
                    VulkanState::empty(),
                    past.take(i),
                    past[i],
                ) == Answer::Ok((vk::CreateInstanceResponse { instance: g }).bytes())
        },
        !backend::takes::<InstanceState, VulkanState>(VulkanState::empty(), past, i, h),
{
    if 0 <= i < past.len() {
        let s = backend::run_state(VulkanState::empty(), past.take(i));
        let made = s.instances.next_handle(KIND_INSTANCE);
        backend::law_answer_of_state(VulkanState::empty(), past.take(i), past[i]);
        handles::law_next_handle_kinds(s.instances, 0, KIND_INSTANCE);
        let of_made = vk::CreateInstanceResponse { instance: made };
        of_made.law_whole();
        if backend::makes::<InstanceState, VulkanState>(VulkanState::empty(), past, i, h) {
            assert(handles::same_object(made, h));
        }
        if exists|g: proto::Handle| #[trigger]
            handles::same_object(g, h) && backend::run_answer(
                VulkanState::empty(),
                past.take(i),
                past[i],
            ) == Answer::Ok((vk::CreateInstanceResponse { instance: g }).bytes()) {
            let g = choose|g: proto::Handle| #[trigger]
                handles::same_object(g, h) && backend::run_answer(
                    VulkanState::empty(),
                    past.take(i),
                    past[i],
                ) == Answer::Ok((vk::CreateInstanceResponse { instance: g }).bytes());
            let of_g = vk::CreateInstanceResponse { instance: g };
            of_g.law_whole();
        }
    }
}

/// No two [`vk_op::CREATE_INSTANCE`] calls are answered with handles of the same
/// slot and generation, and each handle is of its kind.
pub proof fn law_create_instance_issues_once(
    past: Seq<Call>,
    i: int,
    j: int,
    g: proto::Handle,
    h: proto::Handle,
)
    requires
        0 <= i < j < past.len(),
        past[i].opcode == vk_op::CREATE_INSTANCE,
        past[j].opcode == vk_op::CREATE_INSTANCE,
        backend::run_answer(VulkanState::empty(), past.take(i), past[i]) == Answer::Ok(
            (vk::CreateInstanceResponse { instance: g }).bytes(),
        ),
        backend::run_answer(VulkanState::empty(), past.take(j), past[j]) == Answer::Ok(
            (vk::CreateInstanceResponse { instance: h }).bytes(),
        ),
        backend::run_state(VulkanState::empty(), past).instances.slots.len() <= 0x1_0000_0000,
    ensures
        !handles::same_object(g, h),
        g.spec_kind() == KIND_INSTANCE,
        h.spec_kind() == KIND_INSTANCE,
{
    let empty = VulkanState::empty();
    let s = backend::run_state(empty, past.take(i));
    let t = backend::run_state(empty, past.take(j));
    backend::law_answer_of_state(empty, past.take(i), past[i]);
    backend::law_answer_of_state(empty, past.take(j), past[j]);
    let of_g = vk::CreateInstanceResponse { instance: g };
    of_g.law_whole();
    let of_h = vk::CreateInstanceResponse { instance: h };
    of_h.law_whole();
    let made_i = s.instances.next_handle(KIND_INSTANCE);
    let of_made_i = vk::CreateInstanceResponse { instance: made_i };
    of_made_i.law_whole();
    let made_j = t.instances.next_handle(KIND_INSTANCE);
    let of_made_j = vk::CreateInstanceResponse { instance: made_j };
    of_made_j.law_whole();
    backend::law_made_once::<InstanceState, VulkanState>(empty, past, i, j, KIND_INSTANCE);
}

/// The history of the physical devices: a call has made the object of a handle if
/// and only if it was a [`vk_op::ENUMERATE_PHYSICAL_DEVICES`] answered with a
/// handle of the same slot and generation, and no call takes one away.
pub proof fn law_physical_devices_history(past: Seq<Call>, i: int, h: proto::Handle)
    ensures
        backend::makes::<PhysDevState, VulkanState>(VulkanState::empty(), past, i, h) <==> {
            &&& 0 <= i < past.len()
            &&& past[i].opcode == vk_op::ENUMERATE_PHYSICAL_DEVICES
            &&& exists|g: proto::Handle| #[trigger]
                handles::same_object(g, h) && backend::run_answer(
                    VulkanState::empty(),
                    past.take(i),
                    past[i],
                ) == Answer::Ok(vk::device_list_bytes(seq![g]))
        },
        !backend::takes::<PhysDevState, VulkanState>(VulkanState::empty(), past, i, h),
{
    if 0 <= i < past.len() {
        let s = backend::run_state(VulkanState::empty(), past.take(i));
        let made = s.physical_devices.next_handle(KIND_PHYSICAL_DEVICE);
        backend::law_answer_of_state(VulkanState::empty(), past.take(i), past[i]);
        handles::law_next_handle_kinds(s.physical_devices, 0, KIND_PHYSICAL_DEVICE);
        if backend::makes::<PhysDevState, VulkanState>(VulkanState::empty(), past, i, h) {
            assert(handles::same_object(made, h));
        }
        if exists|g: proto::Handle| #[trigger]
            handles::same_object(g, h) && backend::run_answer(
                VulkanState::empty(),
                past.take(i),
                past[i],
            ) == Answer::Ok(vk::device_list_bytes(seq![g])) {
            let g = choose|g: proto::Handle| #[trigger]
                handles::same_object(g, h) && backend::run_answer(
                    VulkanState::empty(),
                    past.take(i),
                    past[i],
                ) == Answer::Ok(vk::device_list_bytes(seq![g]));
            vk::law_one_device(g);
        }
    }
}

/// No two [`vk_op::ENUMERATE_PHYSICAL_DEVICES`] calls are answered with handles of
/// the same slot and generation, and each handle is of its kind.
pub proof fn law_enumerate_physical_devices_issues_once(
    past: Seq<Call>,
    i: int,
    j: int,
    g: proto::Handle,
    h: proto::Handle,
)
    requires
        0 <= i < j < past.len(),
        past[i].opcode == vk_op::ENUMERATE_PHYSICAL_DEVICES,
        past[j].opcode == vk_op::ENUMERATE_PHYSICAL_DEVICES,
        backend::run_answer(VulkanState::empty(), past.take(i), past[i]) == Answer::Ok(
            vk::device_list_bytes(seq![g]),
        ),
        backend::run_answer(VulkanState::empty(), past.take(j), past[j]) == Answer::Ok(
            vk::device_list_bytes(seq![h]),
        ),
        backend::run_state(VulkanState::empty(), past).physical_devices.slots.len()
            <= 0x1_0000_0000,
    ensures
        !handles::same_object(g, h),
        g.spec_kind() == KIND_PHYSICAL_DEVICE,
        h.spec_kind() == KIND_PHYSICAL_DEVICE,
{
    let empty = VulkanState::empty();
    backend::law_answer_of_state(empty, past.take(i), past[i]);
    backend::law_answer_of_state(empty, past.take(j), past[j]);
    vk::law_one_device(g);
    vk::law_one_device(h);
    backend::law_made_once::<PhysDevState, VulkanState>(empty, past, i, j, KIND_PHYSICAL_DEVICE);
}

/// The history of the devices: a call has made the object of a handle if and only
/// if it was a [`vk_op::CREATE_DEVICE`] answered with a handle of the same slot and
/// generation, and no call takes one away.
pub proof fn law_devices_history(past: Seq<Call>, i: int, h: proto::Handle)
    ensures
        backend::makes::<DeviceState, VulkanState>(VulkanState::empty(), past, i, h) <==> {
            &&& 0 <= i < past.len()
            &&& past[i].opcode == vk_op::CREATE_DEVICE
            &&& exists|g: proto::Handle| #[trigger]
                handles::same_object(g, h) && backend::run_answer(
                    VulkanState::empty(),
                    past.take(i),
                    past[i],
                ) == Answer::Ok((vk::CreateDeviceResponse { device: g }).bytes())
        },
        !backend::takes::<DeviceState, VulkanState>(VulkanState::empty(), past, i, h),
{
    if 0 <= i < past.len() {
        let s = backend::run_state(VulkanState::empty(), past.take(i));
        let made = s.devices.next_handle(KIND_DEVICE);
        backend::law_answer_of_state(VulkanState::empty(), past.take(i), past[i]);
        handles::law_next_handle_kinds(s.devices, 0, KIND_DEVICE);
        let of_made = vk::CreateDeviceResponse { device: made };
        of_made.law_whole();
        if backend::makes::<DeviceState, VulkanState>(VulkanState::empty(), past, i, h) {
            assert(handles::same_object(made, h));
        }
        if exists|g: proto::Handle| #[trigger]
            handles::same_object(g, h) && backend::run_answer(
                VulkanState::empty(),
                past.take(i),
                past[i],
            ) == Answer::Ok((vk::CreateDeviceResponse { device: g }).bytes()) {
            let g = choose|g: proto::Handle| #[trigger]
                handles::same_object(g, h) && backend::run_answer(
                    VulkanState::empty(),
                    past.take(i),
                    past[i],
                ) == Answer::Ok((vk::CreateDeviceResponse { device: g }).bytes());
            let of_g = vk::CreateDeviceResponse { device: g };
            of_g.law_whole();
        }
    }
}

/// No two [`vk_op::CREATE_DEVICE`] calls are answered with handles of the same slot
/// and generation, and each handle is of its kind.
pub proof fn law_create_device_issues_once(
    past: Seq<Call>,
    i: int,
    j: int,
    g: proto::Handle,
    h: proto::Handle,
)
    requires
        0 <= i < j < past.len(),
        past[i].opcode == vk_op::CREATE_DEVICE,
        past[j].opcode == vk_op::CREATE_DEVICE,
        backend::run_answer(VulkanState::empty(), past.take(i), past[i]) == Answer::Ok(
            (vk::CreateDeviceResponse { device: g }).bytes(),
        ),
        backend::run_answer(VulkanState::empty(), past.take(j), past[j]) == Answer::Ok(
            (vk::CreateDeviceResponse { device: h }).bytes(),
        ),
        backend::run_state(VulkanState::empty(), past).devices.slots.len() <= 0x1_0000_0000,
    ensures
        !handles::same_object(g, h),
        g.spec_kind() == KIND_DEVICE,
        h.spec_kind() == KIND_DEVICE,
{
    let empty = VulkanState::empty();
    let s = backend::run_state(empty, past.take(i));
    let t = backend::run_state(empty, past.take(j));
    backend::law_answer_of_state(empty, past.take(i), past[i]);
    backend::law_answer_of_state(empty, past.take(j), past[j]);
    let of_g = vk::CreateDeviceResponse { device: g };
    of_g.law_whole();
    let of_h = vk::CreateDeviceResponse { device: h };
    of_h.law_whole();
    let made_i = s.devices.next_handle(KIND_DEVICE);
    let of_made_i = vk::CreateDeviceResponse { device: made_i };
    of_made_i.law_whole();
    let made_j = t.devices.next_handle(KIND_DEVICE);
    let of_made_j = vk::CreateDeviceResponse { device: made_j };
    of_made_j.law_whole();
    backend::law_made_once::<DeviceState, VulkanState>(empty, past, i, j, KIND_DEVICE);
}

/// The history of the queues: a call has made the object of a handle if and only if
/// it was a [`vk_op::GET_DEVICE_QUEUE`] answered with a handle of the same slot and
/// generation, and no call takes one away.
pub proof fn law_queues_history(past: Seq<Call>, i: int, h: proto::Handle)
    ensures
        backend::makes::<QueueState, VulkanState>(VulkanState::empty(), past, i, h) <==> {
            &&& 0 <= i < past.len()
            &&& past[i].opcode == vk_op::GET_DEVICE_QUEUE
            &&& exists|g: proto::Handle| #[trigger]
                handles::same_object(g, h) && backend::run_answer(
                    VulkanState::empty(),
                    past.take(i),
                    past[i],
                ) == Answer::Ok((vk::GetDeviceQueueResponse { queue: g }).bytes())
        },
        !backend::takes::<QueueState, VulkanState>(VulkanState::empty(), past, i, h),
{
    if 0 <= i < past.len() {
        let s = backend::run_state(VulkanState::empty(), past.take(i));
        let made = s.queues.next_handle(KIND_QUEUE);
        backend::law_answer_of_state(VulkanState::empty(), past.take(i), past[i]);
        handles::law_next_handle_kinds(s.queues, 0, KIND_QUEUE);
        let of_made = vk::GetDeviceQueueResponse { queue: made };
        of_made.law_whole();
        if backend::makes::<QueueState, VulkanState>(VulkanState::empty(), past, i, h) {
            assert(handles::same_object(made, h));
        }
        if exists|g: proto::Handle| #[trigger]
            handles::same_object(g, h) && backend::run_answer(
                VulkanState::empty(),
                past.take(i),
                past[i],
            ) == Answer::Ok((vk::GetDeviceQueueResponse { queue: g }).bytes()) {
            let g = choose|g: proto::Handle| #[trigger]
                handles::same_object(g, h) && backend::run_answer(
                    VulkanState::empty(),
                    past.take(i),
                    past[i],
                ) == Answer::Ok((vk::GetDeviceQueueResponse { queue: g }).bytes());
            let of_g = vk::GetDeviceQueueResponse { queue: g };
            of_g.law_whole();
        }
    }
}

/// No two [`vk_op::GET_DEVICE_QUEUE`] calls are answered with handles of the same
/// slot and generation, and each handle is of its kind.
pub proof fn law_get_device_queue_issues_once(
    past: Seq<Call>,
    i: int,
    j: int,
    g: proto::Handle,
    h: proto::Handle,
)
    requires
        0 <= i < j < past.len(),
        past[i].opcode == vk_op::GET_DEVICE_QUEUE,
        past[j].opcode == vk_op::GET_DEVICE_QUEUE,
        backend::run_answer(VulkanState::empty(), past.take(i), past[i]) == Answer::Ok(
            (vk::GetDeviceQueueResponse { queue: g }).bytes(),
        ),
        backend::run_answer(VulkanState::empty(), past.take(j), past[j]) == Answer::Ok(
            (vk::GetDeviceQueueResponse { queue: h }).bytes(),
        ),
        backend::run_state(VulkanState::empty(), past).queues.slots.len() <= 0x1_0000_0000,
    ensures
        !handles::same_object(g, h),
        g.spec_kind() == KIND_QUEUE,
        h.spec_kind() == KIND_QUEUE,
{
    let empty = VulkanState::empty();
    let s = backend::run_state(empty, past.take(i));
    let t = backend::run_state(empty, past.take(j));
    backend::law_answer_of_state(empty, past.take(i), past[i]);
    backend::law_answer_of_state(empty, past.take(j), past[j]);
    let of_g = vk::GetDeviceQueueResponse { queue: g };
    of_g.law_whole();
    let of_h = vk::GetDeviceQueueResponse { queue: h };
    of_h.law_whole();
    let made_i = s.queues.next_handle(KIND_QUEUE);
    let of_made_i = vk::GetDeviceQueueResponse { queue: made_i };
    of_made_i.law_whole();
    let made_j = t.queues.next_handle(KIND_QUEUE);
    let of_made_j = vk::GetDeviceQueueResponse { queue: made_j };
    of_made_j.law_whole();
    backend::law_made_once::<QueueState, VulkanState>(empty, past, i, j, KIND_QUEUE);
}

/// The history of the memories: a call has made the object of a handle if and only
/// if it was a [`vk_op::ALLOCATE_MEMORY`] answered with a handle of the same slot
/// and generation, and no call takes one away.
pub proof fn law_memories_history(past: Seq<Call>, i: int, h: proto::Handle)
    ensures
        backend::makes::<MemoryState, VulkanState>(VulkanState::empty(), past, i, h) <==> {
            &&& 0 <= i < past.len()
            &&& past[i].opcode == vk_op::ALLOCATE_MEMORY
            &&& exists|g: proto::Handle| #[trigger]
                handles::same_object(g, h) && backend::run_answer(
                    VulkanState::empty(),
                    past.take(i),
                    past[i],
                ) == Answer::Ok((vk::AllocateMemoryResponse { memory: g }).bytes())
        },
        !backend::takes::<MemoryState, VulkanState>(VulkanState::empty(), past, i, h),
{
    if 0 <= i < past.len() {
        let s = backend::run_state(VulkanState::empty(), past.take(i));
        let made = s.memories.next_handle(KIND_DEVICE_MEMORY);
        backend::law_answer_of_state(VulkanState::empty(), past.take(i), past[i]);
        handles::law_next_handle_kinds(s.memories, 0, KIND_DEVICE_MEMORY);
        let of_made = vk::AllocateMemoryResponse { memory: made };
        of_made.law_whole();
        if backend::makes::<MemoryState, VulkanState>(VulkanState::empty(), past, i, h) {
            assert(handles::same_object(made, h));
        }
        if exists|g: proto::Handle| #[trigger]
            handles::same_object(g, h) && backend::run_answer(
                VulkanState::empty(),
                past.take(i),
                past[i],
            ) == Answer::Ok((vk::AllocateMemoryResponse { memory: g }).bytes()) {
            let g = choose|g: proto::Handle| #[trigger]
                handles::same_object(g, h) && backend::run_answer(
                    VulkanState::empty(),
                    past.take(i),
                    past[i],
                ) == Answer::Ok((vk::AllocateMemoryResponse { memory: g }).bytes());
            let of_g = vk::AllocateMemoryResponse { memory: g };
            of_g.law_whole();
        }
    }
}

/// No two [`vk_op::ALLOCATE_MEMORY`] calls are answered with handles of the same
/// slot and generation, and each handle is of its kind.
pub proof fn law_allocate_memory_issues_once(
    past: Seq<Call>,
    i: int,
    j: int,
    g: proto::Handle,
    h: proto::Handle,
)
    requires
        0 <= i < j < past.len(),
        past[i].opcode == vk_op::ALLOCATE_MEMORY,
        past[j].opcode == vk_op::ALLOCATE_MEMORY,
        backend::run_answer(VulkanState::empty(), past.take(i), past[i]) == Answer::Ok(
            (vk::AllocateMemoryResponse { memory: g }).bytes(),
        ),
        backend::run_answer(VulkanState::empty(), past.take(j), past[j]) == Answer::Ok(
            (vk::AllocateMemoryResponse { memory: h }).bytes(),
        ),
        backend::run_state(VulkanState::empty(), past).memories.slots.len() <= 0x1_0000_0000,
    ensures
        !handles::same_object(g, h),
        g.spec_kind() == KIND_DEVICE_MEMORY,
        h.spec_kind() == KIND_DEVICE_MEMORY,
{
    let empty = VulkanState::empty();
    let s = backend::run_state(empty, past.take(i));
    let t = backend::run_state(empty, past.take(j));
    backend::law_answer_of_state(empty, past.take(i), past[i]);
    backend::law_answer_of_state(empty, past.take(j), past[j]);
    let of_g = vk::AllocateMemoryResponse { memory: g };
    of_g.law_whole();
    let of_h = vk::AllocateMemoryResponse { memory: h };
    of_h.law_whole();
    let made_i = s.memories.next_handle(KIND_DEVICE_MEMORY);
    let of_made_i = vk::AllocateMemoryResponse { memory: made_i };
    of_made_i.law_whole();
    let made_j = t.memories.next_handle(KIND_DEVICE_MEMORY);
    let of_made_j = vk::AllocateMemoryResponse { memory: made_j };
    of_made_j.law_whole();
    backend::law_made_once::<MemoryState, VulkanState>(empty, past, i, j, KIND_DEVICE_MEMORY);
}

/// The history of the buffers: a call has made the object of a handle if and only
/// if it was a [`vk_op::CREATE_BUFFER`] answered with a handle of the same slot and
/// generation, and no call takes one away.
pub proof fn law_buffers_history(past: Seq<Call>, i: int, h: proto::Handle)
    ensures
        backend::makes::<BufferState, VulkanState>(VulkanState::empty(), past, i, h) <==> {
            &&& 0 <= i < past.len()
            &&& past[i].opcode == vk_op::CREATE_BUFFER
            &&& exists|g: proto::Handle| #[trigger]
                handles::same_object(g, h) && backend::run_answer(
                    VulkanState::empty(),
                    past.take(i),
                    past[i],
                ) == Answer::Ok((vk::CreateBufferResponse { buffer: g }).bytes())
        },
        !backend::takes::<BufferState, VulkanState>(VulkanState::empty(), past, i, h),
{
    if 0 <= i < past.len() {
        let s = backend::run_state(VulkanState::empty(), past.take(i));
        let made = s.buffers.next_handle(KIND_BUFFER);
        backend::law_answer_of_state(VulkanState::empty(), past.take(i), past[i]);
        handles::law_next_handle_kinds(s.buffers, 0, KIND_BUFFER);
        let of_made = vk::CreateBufferResponse { buffer: made };
        of_made.law_whole();
        if backend::makes::<BufferState, VulkanState>(VulkanState::empty(), past, i, h) {
            assert(handles::same_object(made, h));
        }
        if exists|g: proto::Handle| #[trigger]
            handles::same_object(g, h) && backend::run_answer(
                VulkanState::empty(),
                past.take(i),
                past[i],
            ) == Answer::Ok((vk::CreateBufferResponse { buffer: g }).bytes()) {
            let g = choose|g: proto::Handle| #[trigger]
                handles::same_object(g, h) && backend::run_answer(
                    VulkanState::empty(),
                    past.take(i),
                    past[i],
                ) == Answer::Ok((vk::CreateBufferResponse { buffer: g }).bytes());
            let of_g = vk::CreateBufferResponse { buffer: g };
            of_g.law_whole();
        }
    }
}

/// No two [`vk_op::CREATE_BUFFER`] calls are answered with handles of the same slot
/// and generation, and each handle is of its kind.
pub proof fn law_create_buffer_issues_once(
    past: Seq<Call>,
    i: int,
    j: int,
    g: proto::Handle,
    h: proto::Handle,
)
    requires
        0 <= i < j < past.len(),
        past[i].opcode == vk_op::CREATE_BUFFER,
        past[j].opcode == vk_op::CREATE_BUFFER,
        backend::run_answer(VulkanState::empty(), past.take(i), past[i]) == Answer::Ok(
            (vk::CreateBufferResponse { buffer: g }).bytes(),
        ),
        backend::run_answer(VulkanState::empty(), past.take(j), past[j]) == Answer::Ok(
            (vk::CreateBufferResponse { buffer: h }).bytes(),
        ),
        backend::run_state(VulkanState::empty(), past).buffers.slots.len() <= 0x1_0000_0000,
    ensures
        !handles::same_object(g, h),
        g.spec_kind() == KIND_BUFFER,
        h.spec_kind() == KIND_BUFFER,
{
    let empty = VulkanState::empty();
    let s = backend::run_state(empty, past.take(i));
    let t = backend::run_state(empty, past.take(j));
    backend::law_answer_of_state(empty, past.take(i), past[i]);
    backend::law_answer_of_state(empty, past.take(j), past[j]);
    let of_g = vk::CreateBufferResponse { buffer: g };
    of_g.law_whole();
    let of_h = vk::CreateBufferResponse { buffer: h };
    of_h.law_whole();
    let made_i = s.buffers.next_handle(KIND_BUFFER);
    let of_made_i = vk::CreateBufferResponse { buffer: made_i };
    of_made_i.law_whole();
    let made_j = t.buffers.next_handle(KIND_BUFFER);
    let of_made_j = vk::CreateBufferResponse { buffer: made_j };
    of_made_j.law_whole();
    backend::law_made_once::<BufferState, VulkanState>(empty, past, i, j, KIND_BUFFER);
}

/// A [`vk_op::ENUMERATE_PHYSICAL_DEVICES`] is answered if and only if the instance
/// it names was made by an earlier call; else it is refused.
pub proof fn law_enumerate_physical_devices_iff_live(past: Seq<Call>, call: Call)
    requires
        call.opcode == vk_op::ENUMERATE_PHYSICAL_DEVICES,
        vk::EnumeratePhysicalDevicesRequest::parse(call.body) is Ok,
        backend::run_state(VulkanState::empty(), past).instances.slots.len() <= 0x1_0000_0000,
    ensures
        ({
            let h = vk::EnumeratePhysicalDevicesRequest::parse(call.body)->Ok_0.instance;
            if backend::is_live::<InstanceState, VulkanState>(VulkanState::empty(), past, h) {
                backend::run_answer(VulkanState::empty(), past, call) == Answer::Ok(
                    vk::device_list_bytes(
                        seq![backend::run_state(
                            VulkanState::empty(),
                            past,
                        ).physical_devices.next_handle(KIND_PHYSICAL_DEVICE)],
                    ),
                )
            } else {
                backend::run_answer(VulkanState::empty(), past, call) == Answer::Err(
                    proto::ProtocolError::UnknownOpcode(call.opcode),
                )
            }
        }),
{
    let h = vk::EnumeratePhysicalDevicesRequest::parse(call.body)->Ok_0.instance;
    backend::law_live_is_history::<InstanceState, VulkanState>(VulkanState::empty(), past, h);
    backend::law_answer_of_state(VulkanState::empty(), past, call);
    backend::law_run_keeps(VulkanState::empty(), past);
}

/// A [`vk_op::CREATE_DEVICE`] is answered if and only if the physical device it
/// names was made by an earlier call; else it is refused.
pub proof fn law_create_device_iff_live(past: Seq<Call>, call: Call)
    requires
        call.opcode == vk_op::CREATE_DEVICE,
        vk::CreateDeviceRequest::parse(call.body) is Ok,
        backend::run_state(VulkanState::empty(), past).physical_devices.slots.len()
            <= 0x1_0000_0000,
    ensures
        ({
            let h = vk::CreateDeviceRequest::parse(call.body)->Ok_0.physical_device;
            if backend::is_live::<PhysDevState, VulkanState>(VulkanState::empty(), past, h) {
                backend::run_answer(VulkanState::empty(), past, call) == Answer::Ok(
                    (vk::CreateDeviceResponse {
                        device: backend::run_state(
                            VulkanState::empty(),
                            past,
                        ).devices.next_handle(KIND_DEVICE),
                    }).bytes(),
                )
            } else {
                backend::run_answer(VulkanState::empty(), past, call) == Answer::Err(
                    proto::ProtocolError::UnknownOpcode(call.opcode),
                )
            }
        }),
{
    let h = vk::CreateDeviceRequest::parse(call.body)->Ok_0.physical_device;
    backend::law_live_is_history::<PhysDevState, VulkanState>(VulkanState::empty(), past, h);
    backend::law_answer_of_state(VulkanState::empty(), past, call);
}

/// A [`vk_op::GET_DEVICE_QUEUE`] is answered if and only if the device it names was
/// made by an earlier call; else it is refused.
pub proof fn law_get_device_queue_iff_live(past: Seq<Call>, call: Call)
    requires
        call.opcode == vk_op::GET_DEVICE_QUEUE,
        vk::GetDeviceQueueRequest::parse(call.body) is Ok,
        backend::run_state(VulkanState::empty(), past).devices.slots.len() <= 0x1_0000_0000,
    ensures
        ({
            let h = vk::GetDeviceQueueRequest::parse(call.body)->Ok_0.device;
            if backend::is_live::<DeviceState, VulkanState>(VulkanState::empty(), past, h) {
                backend::run_answer(VulkanState::empty(), past, call) == Answer::Ok(
                    (vk::GetDeviceQueueResponse {
                        queue: backend::run_state(
                            VulkanState::empty(),
                            past,
                        ).queues.next_handle(KIND_QUEUE),
                    }).bytes(),
                )
            } else {
                backend::run_answer(VulkanState::empty(), past, call) == Answer::Err(
                    proto::ProtocolError::UnknownOpcode(call.opcode),
                )
            }
        }),
{
    let h = vk::GetDeviceQueueRequest::parse(call.body)->Ok_0.device;
    backend::law_live_is_history::<DeviceState, VulkanState>(VulkanState::empty(), past, h);
    backend::law_answer_of_state(VulkanState::empty(), past, call);
}

/// A [`vk_op::ALLOCATE_MEMORY`] is answered if and only if the device it names was
/// made by an earlier call; else it is refused.
pub proof fn law_allocate_memory_iff_live(past: Seq<Call>, call: Call)
    requires
        call.opcode == vk_op::ALLOCATE_MEMORY,
        vk::AllocateMemoryRequest::parse(call.body) is Ok,
        backend::run_state(VulkanState::empty(), past).devices.slots.len() <= 0x1_0000_0000,
    ensures
        ({
            let h = vk::AllocateMemoryRequest::parse(call.body)->Ok_0.device;
            if backend::is_live::<DeviceState, VulkanState>(VulkanState::empty(), past, h) {
                backend::run_answer(VulkanState::empty(), past, call) == Answer::Ok(
                    (vk::AllocateMemoryResponse {
                        memory: backend::run_state(
                            VulkanState::empty(),
                            past,
                        ).memories.next_handle(KIND_DEVICE_MEMORY),
                    }).bytes(),
                )
            } else {
                backend::run_answer(VulkanState::empty(), past, call) == Answer::Err(
                    proto::ProtocolError::UnknownOpcode(call.opcode),
                )
            }
        }),
{
    let h = vk::AllocateMemoryRequest::parse(call.body)->Ok_0.device;
    backend::law_live_is_history::<DeviceState, VulkanState>(VulkanState::empty(), past, h);
    backend::law_answer_of_state(VulkanState::empty(), past, call);
}

/// A [`vk_op::CREATE_BUFFER`] is answered if and only if the device it names was
/// made by an earlier call; else it is refused.
pub proof fn law_create_buffer_iff_live(past: Seq<Call>, call: Call)
    requires
        call.opcode == vk_op::CREATE_BUFFER,
        vk::CreateBufferRequest::parse(call.body) is Ok,
        backend::run_state(VulkanState::empty(), past).devices.slots.len() <= 0x1_0000_0000,
    ensures
        ({
            let h = vk::CreateBufferRequest::parse(call.body)->Ok_0.device;
            if backend::is_live::<DeviceState, VulkanState>(VulkanState::empty(), past, h) {
                backend::run_answer(VulkanState::empty(), past, call) == Answer::Ok(
                    (vk::CreateBufferResponse {
                        buffer: backend::run_state(
                            VulkanState::empty(),
                            past,
                        ).buffers.next_handle(KIND_BUFFER),
                    }).bytes(),
                )
            } else {
                backend::run_answer(VulkanState::empty(), past, call) == Answer::Err(
                    proto::ProtocolError::UnknownOpcode(call.opcode),
                )
            }
        }),
{
    let h = vk::CreateBufferRequest::parse(call.body)->Ok_0.device;
    backend::law_live_is_history::<DeviceState, VulkanState>(VulkanState::empty(), past, h);
    backend::law_answer_of_state(VulkanState::empty(), past, call);
}

/// What [`vk_op::CREATE_INSTANCE`] hands out can be used for
/// [`vk_op::ENUMERATE_PHYSICAL_DEVICES`], whatever calls come between.
pub proof fn law_create_instance_then_enumerate_physical_devices(
    s: VulkanState,
    make: Call,
    past: Seq<Call>,
    call: Call,
)
    requires
        s.ok(),
        s.instances.free.len() > 0 || s.instances.slots.len() < 0x1_0000_0000,
        make.opcode == vk_op::CREATE_INSTANCE,
        vk::CreateInstanceRequest::parse(make.body) is Ok,
        call.opcode == vk_op::ENUMERATE_PHYSICAL_DEVICES,
        vk::EnumeratePhysicalDevicesRequest::parse(call.body) matches Ok(req)
            && handles::same_object(
            req.instance,
            s.instances.next_handle(KIND_INSTANCE),
        ),
    ensures
        s.step(make).1 == Answer::Ok(
            (vk::CreateInstanceResponse {
                instance: s.instances.next_handle(KIND_INSTANCE),
            }).bytes(),
        ),
        backend::run_answer(s.step(make).0, past, call) == Answer::Ok(
            vk::device_list_bytes(
                seq![backend::run_state(
                    s.step(make).0,
                    past,
                ).physical_devices.next_handle(KIND_PHYSICAL_DEVICE)],
            ),
        ),
{
    handles::law_insert_resolves(
        s.instances,
        KIND_INSTANCE,
        InstanceState { created: true },
    );
    let h = s.instances.next_handle(KIND_INSTANCE);
    let after = s.step(make).0;
    s.law_step_keeps(make);
    backend::law_answer_of_state(after, past, call);
    assert forall|j: int| !(#[trigger] backend::takes::<InstanceState, VulkanState>(
        after,
        past,
        j,
        h,
    )) by {
    }
    backend::law_stays_live::<InstanceState, VulkanState>(after, past, h);
    backend::law_run_keeps(after, past);
}

/// What [`vk_op::ENUMERATE_PHYSICAL_DEVICES`] hands out can be used for
/// [`vk_op::CREATE_DEVICE`], whatever calls come between.
pub proof fn law_enumerate_physical_devices_then_create_device(
    s: VulkanState,
    make: Call,
    past: Seq<Call>,
    call: Call,
)
    requires
        s.ok(),
        s.physical_devices.free.len() > 0 || s.physical_devices.slots.len() < 0x1_0000_0000,
        make.opcode == vk_op::ENUMERATE_PHYSICAL_DEVICES,
        vk::EnumeratePhysicalDevicesRequest::parse(make.body) matches Ok(req)
            && s.has_instance(req.instance),
        call.opcode == vk_op::CREATE_DEVICE,
        vk::CreateDeviceRequest::parse(call.body) matches Ok(req) && handles::same_object(
            req.physical_device,
            s.physical_devices.next_handle(KIND_PHYSICAL_DEVICE),
        ),
    ensures
        s.step(make).1 == Answer::Ok(
            vk::device_list_bytes(seq![s.physical_devices.next_handle(KIND_PHYSICAL_DEVICE)]),
        ),
        backend::run_answer(s.step(make).0, past, call) == Answer::Ok(
            (vk::CreateDeviceResponse {
                device: backend::run_state(s.step(make).0, past).devices.next_handle(KIND_DEVICE),
            }).bytes(),
        ),
{
    let req = vk::EnumeratePhysicalDevicesRequest::parse(make.body)->Ok_0;
    handles::law_insert_resolves(
        s.physical_devices,
        KIND_PHYSICAL_DEVICE,
        PhysDevState { parent: req.instance },
    );
    let h = s.physical_devices.next_handle(KIND_PHYSICAL_DEVICE);
    let after = s.step(make).0;
    s.law_step_keeps(make);
    backend::law_answer_of_state(after, past, call);
    assert forall|j: int| !(#[trigger] backend::takes::<PhysDevState, VulkanState>(
        after,
        past,
        j,
        h,
    )) by {
    }
    backend::law_stays_live::<PhysDevState, VulkanState>(after, past, h);
}

/// What [`vk_op::CREATE_DEVICE`] hands out can be used for
/// [`vk_op::GET_DEVICE_QUEUE`], whatever calls come between.
pub proof fn law_create_device_then_get_device_queue(
    s: VulkanState,
    make: Call,
    past: Seq<Call>,
    call: Call,
)
    requires
        s.ok(),
        s.devices.free.len() > 0 || s.devices.slots.len() < 0x1_0000_0000,
        make.opcode == vk_op::CREATE_DEVICE,
        vk::CreateDeviceRequest::parse(make.body) matches Ok(req)
            && s.physical_devices.lookup(req.physical_device) is Some,
        call.opcode == vk_op::GET_DEVICE_QUEUE,
        vk::GetDeviceQueueRequest::parse(call.body) matches Ok(req) && handles::same_object(
            req.device,
            s.devices.next_handle(KIND_DEVICE),
        ),
    ensures
        s.step(make).1 == Answer::Ok(
            (vk::CreateDeviceResponse { device: s.devices.next_handle(KIND_DEVICE) }).bytes(),
        ),
        backend::run_answer(s.step(make).0, past, call) == Answer::Ok(
            (vk::GetDeviceQueueResponse {
                queue: backend::run_state(s.step(make).0, past).queues.next_handle(KIND_QUEUE),
            }).bytes(),
        ),
{
    let req = vk::CreateDeviceRequest::parse(make.body)->Ok_0;
    handles::law_insert_resolves(
        s.devices,
        KIND_DEVICE,
        DeviceState { physical_device: req.physical_device },
    );
    let h = s.devices.next_handle(KIND_DEVICE);
    let after = s.step(make).0;
    s.law_step_keeps(make);
    backend::law_answer_of_state(after, past, call);
    assert forall|j: int| !(#[trigger] backend::takes::<DeviceState, VulkanState>(
        after,
        past,
        j,
        h,
    )) by {
    }
    backend::law_stays_live::<DeviceState, VulkanState>(after, past, h);
}

/// What [`vk_op::CREATE_DEVICE`] hands out can be used for
/// [`vk_op::ALLOCATE_MEMORY`], whatever calls come between.
pub proof fn law_create_device_then_allocate_memory(
    s: VulkanState,
    make: Call,
    past: Seq<Call>,
    call: Call,
)
    requires
        s.ok(),
        s.devices.free.len() > 0 || s.devices.slots.len() < 0x1_0000_0000,
        make.opcode == vk_op::CREATE_DEVICE,
        vk::CreateDeviceRequest::parse(make.body) matches Ok(req)
            && s.physical_devices.lookup(req.physical_device) is Some,
        call.opcode == vk_op::ALLOCATE_MEMORY,
        vk::AllocateMemoryRequest::parse(call.body) matches Ok(req) && handles::same_object(
            req.device,
            s.devices.next_handle(KIND_DEVICE),
        ),
    ensures
        s.step(make).1 == Answer::Ok(
            (vk::CreateDeviceResponse { device: s.devices.next_handle(KIND_DEVICE) }).bytes(),
        ),
        backend::run_answer(s.step(make).0, past, call) == Answer::Ok(
            (vk::AllocateMemoryResponse {
                memory: backend::run_state(
                    s.step(make).0,
                    past,
                ).memories.next_handle(KIND_DEVICE_MEMORY),
            }).bytes(),
        ),
{
    let req = vk::CreateDeviceRequest::parse(make.body)->Ok_0;
    handles::law_insert_resolves(
        s.devices,
        KIND_DEVICE,
        DeviceState { physical_device: req.physical_device },
    );
    let h = s.devices.next_handle(KIND_DEVICE);
    let after = s.step(make).0;
    s.law_step_keeps(make);
    backend::law_answer_of_state(after, past, call);
    assert forall|j: int| !(#[trigger] backend::takes::<DeviceState, VulkanState>(
        after,
        past,
        j,
        h,
    )) by {
    }
    backend::law_stays_live::<DeviceState, VulkanState>(after, past, h);
}

/// What [`vk_op::CREATE_DEVICE`] hands out can be used for
/// [`vk_op::CREATE_BUFFER`], whatever calls come between.
pub proof fn law_create_device_then_create_buffer(
    s: VulkanState,
    make: Call,
    past: Seq<Call>,
    call: Call,
)
    requires
        s.ok(),
        s.devices.free.len() > 0 || s.devices.slots.len() < 0x1_0000_0000,
        make.opcode == vk_op::CREATE_DEVICE,
        vk::CreateDeviceRequest::parse(make.body) matches Ok(req)
            && s.physical_devices.lookup(req.physical_device) is Some,
        call.opcode == vk_op::CREATE_BUFFER,
        vk::CreateBufferRequest::parse(call.body) matches Ok(req) && handles::same_object(
            req.device,
            s.devices.next_handle(KIND_DEVICE),
        ),
    ensures
        s.step(make).1 == Answer::Ok(
            (vk::CreateDeviceResponse { device: s.devices.next_handle(KIND_DEVICE) }).bytes(),
        ),
        backend::run_answer(s.step(make).0, past, call) == Answer::Ok(
            (vk::CreateBufferResponse {
                buffer: backend::run_state(s.step(make).0, past).buffers.next_handle(KIND_BUFFER),
            }).bytes(),
        ),
{
    let req = vk::CreateDeviceRequest::parse(make.body)->Ok_0;
    handles::law_insert_resolves(
        s.devices,
        KIND_DEVICE,
        DeviceState { physical_device: req.physical_device },
    );
    let h = s.devices.next_handle(KIND_DEVICE);
    let after = s.step(make).0;
    s.law_step_keeps(make);
    backend::law_answer_of_state(after, past, call);
    assert forall|j: int| !(#[trigger] backend::takes::<DeviceState, VulkanState>(
        after,
        past,
        j,
        h,
    )) by {
    }
    backend::law_stays_live::<DeviceState, VulkanState>(after, past, h);
}

/// A [`vk_op::BIND_BUFFER_MEMORY`] is acknowledged if and only if its buffer and
/// its memory were made by earlier calls; else it is refused.
pub proof fn law_bind_buffer_memory_iff_live(past: Seq<Call>, call: Call)
    requires
        call.opcode == vk_op::BIND_BUFFER_MEMORY,
        vk::BindBufferMemoryRequest::parse(call.body) is Ok,
        backend::run_state(VulkanState::empty(), past).buffers.slots.len() <= 0x1_0000_0000,
        backend::run_state(VulkanState::empty(), past).memories.slots.len()
            <= 0x1_0000_0000,
    ensures
        ({
            let req = vk::BindBufferMemoryRequest::parse(call.body)->Ok_0;
            let empty = VulkanState::empty();
            if backend::is_live::<BufferState, VulkanState>(empty, past, req.buffer)
                && backend::is_live::<MemoryState, VulkanState>(empty, past, req.memory) {
                backend::run_answer(empty, past, call) == Answer::Ok(seq![])
            } else {
                backend::run_answer(empty, past, call) == Answer::Err(
                    proto::ProtocolError::UnknownOpcode(call.opcode),
                )
            }
        }),
{
    let req = vk::BindBufferMemoryRequest::parse(call.body)->Ok_0;
    let empty = VulkanState::empty();
    backend::law_live_is_history::<BufferState, VulkanState>(empty, past, req.buffer);
    backend::law_live_is_history::<MemoryState, VulkanState>(empty, past, req.memory);
    backend::law_answer_of_state(empty, past, call);
}

/// A live buffer and live memory can be bound whatever calls come between.
pub proof fn law_bind_buffer_memory_stays(s: VulkanState, past: Seq<Call>, call: Call)
    requires
        s.ok(),
        call.opcode == vk_op::BIND_BUFFER_MEMORY,
        vk::BindBufferMemoryRequest::parse(call.body) matches Ok(req)
            && s.buffers.lookup(req.buffer) is Some && s.memories.lookup(req.memory) is Some,
    ensures
        backend::run_answer(s, past, call) == Answer::Ok(seq![]),
{
    let req = vk::BindBufferMemoryRequest::parse(call.body)->Ok_0;
    assert forall|j: int| !(#[trigger] backend::takes::<BufferState, VulkanState>(
        s,
        past,
        j,
        req.buffer,
    )) by {
    }
    assert forall|j: int| !(#[trigger] backend::takes::<MemoryState, VulkanState>(
        s,
        past,
        j,
        req.memory,
    )) by {
    }
    backend::law_stays_live::<BufferState, VulkanState>(s, past, req.buffer);
    backend::law_stays_live::<MemoryState, VulkanState>(s, past, req.memory);
    backend::law_answer_of_state(s, past, call);
}

/// A [`vk_op::CREATE_INSTANCE`] is always answered, whatever calls came before and
/// whatever bytes follow the request, with a handle of its kind. As long as a slot
/// index is left, the handle names an instance that was not there before; nothing
/// else changes.
pub proof fn law_create_instance_answered(
    s: VulkanState,
    req: vk::CreateInstanceRequest,
    rest: Seq<u8>,
    req_id: u32,
) -> (h: proto::Handle)
    ensures
        ({
            let call = Call { opcode: vk_op::CREATE_INSTANCE, req_id, body: req.bytes() + rest };
            let (after, answer) = s.step(call);
            &&& answer == Answer::Ok((vk::CreateInstanceResponse { instance: h }).bytes())
            &&& h.spec_kind() == KIND_INSTANCE
            &&& s.ok() && (s.instances.free.len() > 0 || s.instances.slots.len()
                < 0x1_0000_0000) ==> {
                &&& s.instances.lookup(h) is None
                &&& after.instances.lookup(h) == Some(InstanceState { created: true })
                &&& forall|g: proto::Handle|
                    !handles::same_object(g, h) ==> #[trigger] after.instances.lookup(g)
                        == s.instances.lookup(g)
            }
            &&& after.physical_devices == s.physical_devices
            &&& after.devices == s.devices
            &&& after.queues == s.queues
            &&& after.memories == s.memories
            &&& after.buffers == s.buffers
        }),
{
    req.law_round_trip(rest);
    handles::law_insert_issues(s.instances, KIND_INSTANCE, InstanceState { created: true });
    s.instances.next_handle(KIND_INSTANCE)
}

/// A [`vk_op::ENUMERATE_PHYSICAL_DEVICES`] that names a live instance is always
/// answered, whatever calls came before and whatever bytes follow the request, with
/// a handle of its kind. As long as a slot index is left, the handle names a
/// physical device that was not there before and that holds what was asked for;
/// nothing else changes.
pub proof fn law_enumerate_physical_devices_answered(
    s: VulkanState,
    req: vk::EnumeratePhysicalDevicesRequest,
    rest: Seq<u8>,
    req_id: u32,
) -> (h: proto::Handle)
    requires
        s.has_instance(req.instance),
    ensures
        ({
            let call = Call {
                opcode: vk_op::ENUMERATE_PHYSICAL_DEVICES,
                req_id,
                body: req.bytes() + rest,
            };
            let (after, answer) = s.step(call);
            &&& answer == Answer::Ok(vk::device_list_bytes(seq![h]))
            &&& h.spec_kind() == KIND_PHYSICAL_DEVICE
            &&& s.ok() && (s.physical_devices.free.len() > 0 || s.physical_devices.slots.len()
                < 0x1_0000_0000) ==> {
                &&& s.physical_devices.lookup(h) is None
                &&& after.physical_devices.lookup(h) == Some(
                    PhysDevState { parent: req.instance },
                )
                &&& forall|g: proto::Handle|
                    !handles::same_object(g, h) ==> #[trigger] after.physical_devices.lookup(g)
                        == s.physical_devices.lookup(g)
            }
            &&& after.instances == s.instances
            &&& after.devices == s.devices
            &&& after.queues == s.queues
            &&& after.memories == s.memories
            &&& after.buffers == s.buffers
        }),
{
    req.law_round_trip(rest);
    lemma_instance_named(req, rest);
    handles::law_insert_issues(
        s.physical_devices,
        KIND_PHYSICAL_DEVICE,
        PhysDevState { parent: req.instance },
    );
    s.physical_devices.next_handle(KIND_PHYSICAL_DEVICE)
}

/// A [`vk_op::CREATE_DEVICE`] that names a live physical device is always answered,
/// whatever calls came before and whatever bytes follow the request, with a handle
/// of its kind. As long as a slot index is left, the handle names a device that was
/// not there before and that holds what was asked for; nothing else changes.
pub proof fn law_create_device_answered(
    s: VulkanState,
    req: vk::CreateDeviceRequest,
    rest: Seq<u8>,
    req_id: u32,
) -> (h: proto::Handle)
    requires
        s.physical_devices.lookup(req.physical_device) is Some,
    ensures
        ({
            let call = Call { opcode: vk_op::CREATE_DEVICE, req_id, body: req.bytes() + rest };
            let (after, answer) = s.step(call);
            &&& answer == Answer::Ok((vk::CreateDeviceResponse { device: h }).bytes())
            &&& h.spec_kind() == KIND_DEVICE
            &&& s.ok() && (s.devices.free.len() > 0 || s.devices.slots.len()
                < 0x1_0000_0000) ==> {
                &&& s.devices.lookup(h) is None
                &&& after.devices.lookup(h) == Some(
                    DeviceState { physical_device: req.physical_device },
                )
                &&& forall|g: proto::Handle|
                    !handles::same_object(g, h) ==> #[trigger] after.devices.lookup(g)
                        == s.devices.lookup(g)
            }
            &&& after.instances == s.instances
            &&& after.physical_devices == s.physical_devices
            &&& after.queues == s.queues
            &&& after.memories == s.memories
            &&& after.buffers == s.buffers
        }),
{
    req.law_round_trip(rest);
    handles::law_insert_issues(
        s.devices,
        KIND_DEVICE,
        DeviceState { physical_device: req.physical_device },
    );
    s.devices.next_handle(KIND_DEVICE)
}

/// A [`vk_op::CREATE_DEVICE`] that names no live physical device is refused by its
/// opcode, and changes nothing.
pub proof fn law_create_device_needs_physical_device(
    s: VulkanState,
    req: vk::CreateDeviceRequest,
    rest: Seq<u8>,
    req_id: u32,
)
    requires
        s.physical_devices.lookup(req.physical_device) is None,
    ensures
        s.step(Call { opcode: vk_op::CREATE_DEVICE, req_id, body: req.bytes() + rest }) == (
            s,
            Answer::Err(proto::ProtocolError::UnknownOpcode(vk_op::CREATE_DEVICE)),
        ),
{
    req.law_round_trip(rest);
}

/// A [`vk_op::GET_DEVICE_QUEUE`] that names a live device is always answered,
/// whatever calls came before and whatever bytes follow the request, with a handle
/// of its kind. As long as a slot index is left, the handle names a queue that was
/// not there before and that holds what was asked for; nothing else changes.
pub proof fn law_get_device_queue_answered(
    s: VulkanState,
    req: vk::GetDeviceQueueRequest,
    rest: Seq<u8>,
    req_id: u32,
) -> (h: proto::Handle)
    requires
        s.devices.lookup(req.device) is Some,
    ensures
        ({
            let call = Call { opcode: vk_op::GET_DEVICE_QUEUE, req_id, body: req.bytes() + rest };
            let (after, answer) = s.step(call);
            &&& answer == Answer::Ok((vk::GetDeviceQueueResponse { queue: h }).bytes())
            &&& h.spec_kind() == KIND_QUEUE
            &&& s.ok() && (s.queues.free.len() > 0 || s.queues.slots.len() < 0x1_0000_0000) ==> {
                &&& s.queues.lookup(h) is None
                &&& after.queues.lookup(h) == Some(
                    QueueState {
                        device: req.device,
                        queue_family_index: req.queue_family_index,
                        queue_index: req.queue_index,
                    },
                )
                &&& forall|g: proto::Handle|
                    !handles::same_object(g, h) ==> #[trigger] after.queues.lookup(g)
                        == s.queues.lookup(g)
            }
            &&& after.instances == s.instances
            &&& after.physical_devices == s.physical_devices
            &&& after.devices == s.devices
            &&& after.memories == s.memories
            &&& after.buffers == s.buffers
        }),
{
    req.law_round_trip(rest);
    handles::law_insert_issues(
        s.queues,
        KIND_QUEUE,
        QueueState {
            device: req.device,
            queue_family_index: req.queue_family_index,
            queue_index: req.queue_index,
        },
    );
    s.queues.next_handle(KIND_QUEUE)
}

/// A [`vk_op::GET_DEVICE_QUEUE`] that names no live device is refused by its
/// opcode, and changes nothing.
pub proof fn law_get_device_queue_needs_device(
    s: VulkanState,
    req: vk::GetDeviceQueueRequest,
    rest: Seq<u8>,
    req_id: u32,
)
    requires
        s.devices.lookup(req.device) is None,
    ensures
        s.step(Call { opcode: vk_op::GET_DEVICE_QUEUE, req_id, body: req.bytes() + rest }) == (
            s,
            Answer::Err(proto::ProtocolError::UnknownOpcode(vk_op::GET_DEVICE_QUEUE)),
        ),
{
    req.law_round_trip(rest);
}

/// A [`vk_op::ALLOCATE_MEMORY`] that names a live device is always answered,
/// whatever calls came before and whatever bytes follow the request, with a handle
/// of its kind. As long as a slot index is left, the handle names a memory that was
/// not there before and that holds what was asked for; nothing else changes.
pub proof fn law_allocate_memory_answered(
    s: VulkanState,
    req: vk::AllocateMemoryRequest,
    rest: Seq<u8>,
    req_id: u32,
) -> (h: proto::Handle)
    requires
        s.devices.lookup(req.device) is Some,
    ensures
        ({
            let call = Call { opcode: vk_op::ALLOCATE_MEMORY, req_id, body: req.bytes() + rest };
            let (after, answer) = s.step(call);
            &&& answer == Answer::Ok((vk::AllocateMemoryResponse { memory: h }).bytes())
            &&& h.spec_kind() == KIND_DEVICE_MEMORY
            &&& s.ok() && (s.memories.free.len() > 0 || s.memories.slots.len()
                < 0x1_0000_0000) ==> {
                &&& s.memories.lookup(h) is None
                &&& after.memories.lookup(h) == Some(
                    MemoryState { device: req.device, size: req.size },
                )
                &&& forall|g: proto::Handle|
                    !handles::same_object(g, h) ==> #[trigger] after.memories.lookup(g)
                        == s.memories.lookup(g)
            }
            &&& after.instances == s.instances
            &&& after.physical_devices == s.physical_devices
            &&& after.devices == s.devices
            &&& after.queues == s.queues
            &&& after.buffers == s.buffers
        }),
{
    req.law_round_trip(rest);
    handles::law_insert_issues(
        s.memories,
        KIND_DEVICE_MEMORY,
        MemoryState { device: req.device, size: req.size },
    );
    s.memories.next_handle(KIND_DEVICE_MEMORY)
}

/// A [`vk_op::ALLOCATE_MEMORY`] that names no live device is refused by its opcode,
/// and changes nothing.
pub proof fn law_allocate_memory_needs_device(
    s: VulkanState,
    req: vk::AllocateMemoryRequest,
    rest: Seq<u8>,
    req_id: u32,
)
    requires
        s.devices.lookup(req.device) is None,
    ensures
        s.step(Call { opcode: vk_op::ALLOCATE_MEMORY, req_id, body: req.bytes() + rest }) == (
            s,
            Answer::Err(proto::ProtocolError::UnknownOpcode(vk_op::ALLOCATE_MEMORY)),
        ),
{
    req.law_round_trip(rest);
}

/// A [`vk_op::CREATE_BUFFER`] that names a live device is always answered, whatever
/// calls came before and whatever bytes follow the request, with a handle of its
/// kind. As long as a slot index is left, the handle names a buffer that was not
/// there before and that holds what was asked for; nothing else changes.
pub proof fn law_create_buffer_answered(
    s: VulkanState,
    req: vk::CreateBufferRequest,
    rest: Seq<u8>,
    req_id: u32,
) -> (h: proto::Handle)
    requires
        s.devices.lookup(req.device) is Some,
    ensures
        ({
            let call = Call { opcode: vk_op::CREATE_BUFFER, req_id, body: req.bytes() + rest };
            let (after, answer) = s.step(call);
            &&& answer == Answer::Ok((vk::CreateBufferResponse { buffer: h }).bytes())
            &&& h.spec_kind() == KIND_BUFFER
            &&& s.ok() && (s.buffers.free.len() > 0 || s.buffers.slots.len()
                < 0x1_0000_0000) ==> {
                &&& s.buffers.lookup(h) is None
                &&& after.buffers.lookup(h) == Some(
                    BufferState { device: req.device, size: req.size, usage: req.usage },
                )
                &&& forall|g: proto::Handle|
                    !handles::same_object(g, h) ==> #[trigger] after.buffers.lookup(g)
                        == s.buffers.lookup(g)
            }
            &&& after.instances == s.instances
            &&& after.physical_devices == s.physical_devices
            &&& after.devices == s.devices
            &&& after.queues == s.queues
            &&& after.memories == s.memories
        }),
{
    req.law_round_trip(rest);
    handles::law_insert_issues(
        s.buffers,
        KIND_BUFFER,
        BufferState { device: req.device, size: req.size, usage: req.usage },
    );
    s.buffers.next_handle(KIND_BUFFER)
}

/// A [`vk_op::CREATE_BUFFER`] that names no live device is refused by its opcode,
/// and changes nothing.
pub proof fn law_create_buffer_needs_device(
    s: VulkanState,
    req: vk::CreateBufferRequest,
    rest: Seq<u8>,
    req_id: u32,
)
    requires
        s.devices.lookup(req.device) is None,
    ensures
        s.step(Call { opcode: vk_op::CREATE_BUFFER, req_id, body: req.bytes() + rest }) == (
            s,
            Answer::Err(proto::ProtocolError::UnknownOpcode(vk_op::CREATE_BUFFER)),
        ),
{
    req.law_round_trip(rest);
}

/// A [`vk_op::BIND_BUFFER_MEMORY`] is acknowledged with an empty body if its buffer
/// and its memory are live, and refused by its opcode if not; either way nothing
/// changes.
pub proof fn law_bind_buffer_memory_acknowledged(
    s: VulkanState,
    req: vk::BindBufferMemoryRequest,
    rest: Seq<u8>,
    req_id: u32,
)
    ensures
        ({
            let call = Call {
                opcode: vk_op::BIND_BUFFER_MEMORY,
                req_id,
                body: req.bytes() + rest,
            };
            let (after, answer) = s.step(call);
            &&& after == s
            &&& answer == if s.buffers.lookup(req.buffer) is Some && s.memories.lookup(
                req.memory,
            ) is Some {
                Answer::Ok(seq![])
            } else {
                Answer::Err(proto::ProtocolError::UnknownOpcode(vk_op::BIND_BUFFER_MEMORY))
            }
        }),
{
    req.law_round_trip(rest);
}

/// An enumeration that names no instance lists no device and changes nothing; one
/// that names an instance which is not live is refused by its opcode.
pub proof fn law_enumerate_without_instance(
    s: VulkanState,
    req: vk::EnumeratePhysicalDevicesRequest,
    rest: Seq<u8>,
    req_id: u32,
)
    ensures
        ({
            let opcode = vk_op::ENUMERATE_PHYSICAL_DEVICES;
            let (after, answer) = s.step(Call { opcode, req_id, body: seq![] });
            &&& after == s
            &&& answer is Ok
            &&& vk::parse_devices(answer->Ok_0) == Ok::<Seq<proto::Handle>, proto::ProtocolError>(
                seq![],
            )
            &&& answer->Ok_0.len() == 4
        }),
        !s.has_instance(req.instance) ==> s.step(
            Call {
                opcode: vk_op::ENUMERATE_PHYSICAL_DEVICES,
                req_id,
                body: req.bytes() + rest,
            },
        ) == (
            s,
            Answer::Err(
                proto::ProtocolError::UnknownOpcode(vk_op::ENUMERATE_PHYSICAL_DEVICES),
            ),
        ),
{
    vk::law_devices_whole(seq![]);
    vk::law_device_list_len(seq![]);
    req.law_round_trip(rest);
    lemma_instance_named(req, rest);
}

/// A request that names an instance is not empty.
proof fn lemma_instance_named(req: vk::EnumeratePhysicalDevicesRequest, rest: Seq<u8>)
    ensures
        (req.bytes() + rest).len() > 0,
{
    broadcast use crate::protocol::bytes::group_le_len;

}

/// A call whose body is too short for its request is refused as an unexpected end,
/// and changes nothing.
pub proof fn law_short_bodies_refused(s: VulkanState, call: Call)
    requires
        ({
            ||| call.opcode == vk_op::CREATE_INSTANCE && call.body.len() < 4
            ||| call.opcode == vk_op::ENUMERATE_PHYSICAL_DEVICES && 0 < call.body.len() < 8
            ||| call.opcode == vk_op::CREATE_DEVICE && call.body.len() < 8
            ||| call.opcode == vk_op::GET_DEVICE_QUEUE && call.body.len() < 16
            ||| call.opcode == vk_op::ALLOCATE_MEMORY && call.body.len() < 16
            ||| call.opcode == vk_op::CREATE_BUFFER && call.body.len() < 20
            ||| call.opcode == vk_op::BIND_BUFFER_MEMORY && call.body.len() < 24
        }),
    ensures
        s.step(call) == (s, Answer::Err(proto::ProtocolError::UnexpectedEof)),
{
}

/// Only calls of the backend's own namespace are answered. Every other opcode, of
/// the namespace or not, is refused by that opcode, whatever its body holds, and
/// changes nothing.
pub proof fn law_other_calls_refused(s: VulkanState, call: Call)
    ensures
        s.step(call).1 is Ok ==> call.opcode / 0x100_0000 == proto::ApiId::Vulkan.byte(),
        ({
            &&& call.opcode != vk_op::CREATE_INSTANCE
            &&& call.opcode != vk_op::ENUMERATE_PHYSICAL_DEVICES
            &&& call.opcode != vk_op::CREATE_DEVICE
            &&& call.opcode != vk_op::GET_DEVICE_QUEUE
            &&& call.opcode != vk_op::ALLOCATE_MEMORY
            &&& call.opcode != vk_op::CREATE_BUFFER
            &&& call.opcode != vk_op::BIND_BUFFER_MEMORY
        }) ==> s.step(call) == (
            s,
            Answer::Err(proto::ProtocolError::UnknownOpcode(call.opcode)),
        ),
{
}

/// A new backend serves the namespace of its API, and holds nothing that a handle
/// resolves to.
pub proof fn law_new_backend(
    backend: VulkanBackend,
    reader: &VulkanBackend,
    api: proto::ApiId,
    h: proto::Handle,
)
    requires
        call_ensures(VulkanBackend::new, (), backend),
        call_ensures(<VulkanBackend as Backend>::api, (reader,), api),
    ensures
        api == proto::ApiId::Vulkan,
        api.byte() == 1,
        backend.inv(),
        backend@.instances.lookup(h) is None,
        backend@.physical_devices.lookup(h) is None,
        backend@.devices.lookup(h) is None,
        backend@.queues.lookup(h) is None,
        backend@.memories.lookup(h) is None,
        backend@.buffers.lookup(h) is None,
{
}

} // verus!
