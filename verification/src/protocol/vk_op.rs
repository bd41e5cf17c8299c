//! Vulkan opcodes (under [`super::ApiId::Vulkan`](super::ApiId::Vulkan)).
use vstd::prelude::*;

verus! {

/// `vkCreateInstance`: create a Vulkan instance.
pub const CREATE_INSTANCE: u32 = 0x0100_0001;

/// `vkDestroyInstance`: destroy a Vulkan instance.
pub const DESTROY_INSTANCE: u32 = 0x0100_0002;

/// `vkEnumeratePhysicalDevices`: list the physical devices on an instance.
pub const ENUMERATE_PHYSICAL_DEVICES: u32 = 0x0100_0003;

/// `vkGetPhysicalDeviceProperties`: query a physical device's properties.
pub const GET_PHYSICAL_DEVICE_PROPERTIES: u32 = 0x0100_0004;

/// `vkCreateDevice`: create a logical device from a physical device.
pub const CREATE_DEVICE: u32 = 0x0100_0005;

/// `vkDestroyDevice`: destroy a logical device.
pub const DESTROY_DEVICE: u32 = 0x0100_0006;

/// `vkGetDeviceQueue`: retrieve a queue handle from a logical device.
pub const GET_DEVICE_QUEUE: u32 = 0x0100_0007;

/// `vkDeviceWaitIdle`: block until a logical device is idle.
pub const DEVICE_WAIT_IDLE: u32 = 0x0100_0008;

/// `vkAllocateMemory`: allocate a block of device memory.
pub const ALLOCATE_MEMORY: u32 = 0x0100_0010;

/// `vkCreateBuffer`: create a buffer object on a device.
pub const CREATE_BUFFER: u32 = 0x0100_0011;

/// `vkBindBufferMemory`: bind device memory to a buffer.
pub const BIND_BUFFER_MEMORY: u32 = 0x0100_0012;

/// `vkDestroyBuffer`: destroy a buffer object.
pub const DESTROY_BUFFER: u32 = 0x0100_0013;

/// `vkFreeMemory`: free a block of device memory.
pub const FREE_MEMORY: u32 = 0x0100_0014;

/// `vkCreateCommandPool`: create a command pool on a device.
pub const CREATE_COMMAND_POOL: u32 = 0x0100_0020;

/// `vkAllocateCommandBuffers`: allocate a command buffer from a pool.
pub const ALLOCATE_COMMAND_BUFFER: u32 = 0x0100_0021;

/// `vkQueueSubmit`: submit a command buffer to a queue.
pub const QUEUE_SUBMIT: u32 = 0x0100_0022;

/// `vkCmdCopyBuffer`: record a buffer-to-buffer copy into a command buffer.
pub const CMD_COPY_BUFFER: u32 = 0x0100_0023;

/// `vkCmdDraw`: record a non-indexed draw into a command buffer.
pub const CMD_DRAW: u32 = 0x0100_0024;

/// `vkDestroyCommandPool`: destroy a command pool.
pub const DESTROY_COMMAND_POOL: u32 = 0x0100_0025;

/// Every one of these opcodes is in the namespace of
/// [`ApiId::Vulkan`](super::ApiId::Vulkan), each under a call id of its own.
pub proof fn law_opcodes()
    ensures
        CREATE_INSTANCE == super::spec_opcode(super::ApiId::Vulkan, 0x1),
        DESTROY_INSTANCE == super::spec_opcode(super::ApiId::Vulkan, 0x2),
        ENUMERATE_PHYSICAL_DEVICES == super::spec_opcode(super::ApiId::Vulkan, 0x3),
        GET_PHYSICAL_DEVICE_PROPERTIES == super::spec_opcode(super::ApiId::Vulkan, 0x4),
        CREATE_DEVICE == super::spec_opcode(super::ApiId::Vulkan, 0x5),
        DESTROY_DEVICE == super::spec_opcode(super::ApiId::Vulkan, 0x6),
        GET_DEVICE_QUEUE == super::spec_opcode(super::ApiId::Vulkan, 0x7),
        DEVICE_WAIT_IDLE == super::spec_opcode(super::ApiId::Vulkan, 0x8),
        ALLOCATE_MEMORY == super::spec_opcode(super::ApiId::Vulkan, 0x10),
        CREATE_BUFFER == super::spec_opcode(super::ApiId::Vulkan, 0x11),
        BIND_BUFFER_MEMORY == super::spec_opcode(super::ApiId::Vulkan, 0x12),
        DESTROY_BUFFER == super::spec_opcode(super::ApiId::Vulkan, 0x13),
        FREE_MEMORY == super::spec_opcode(super::ApiId::Vulkan, 0x14),
        CREATE_COMMAND_POOL == super::spec_opcode(super::ApiId::Vulkan, 0x20),
        ALLOCATE_COMMAND_BUFFER == super::spec_opcode(super::ApiId::Vulkan, 0x21),
        QUEUE_SUBMIT == super::spec_opcode(super::ApiId::Vulkan, 0x22),
        CMD_COPY_BUFFER == super::spec_opcode(super::ApiId::Vulkan, 0x23),
        CMD_DRAW == super::spec_opcode(super::ApiId::Vulkan, 0x24),
        DESTROY_COMMAND_POOL == super::spec_opcode(super::ApiId::Vulkan, 0x25),
{
}

} // verus!
