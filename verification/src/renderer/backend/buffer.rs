//! GPU buffers: what memory one needs, how much it holds, and that it is
//! destroyed once.

use vstd::prelude::*;

use super::find_memorytype_index;
use super::vk;

verus! {

/// Memory property bit: the host can map the memory.
pub const MEMORY_PROPERTY_HOST_VISIBLE: u32 = 0x2;

/// Memory property bit: host writes need no flush.
pub const MEMORY_PROPERTY_HOST_COHERENT: u32 = 0x4;

/// Memory property bit: the memory is local to the device.
pub const MEMORY_PROPERTY_DEVICE_LOCAL: u32 = 0x1;

/// Why a buffer could not be set up.
#[derive(Clone, Copy, Debug, PartialEq, Eq, Structural)]
pub enum BufferError {
    /// The device has no memory type that the buffer allows and that has
    /// the properties asked for.
    NoSuitableMemoryType,
}

/// How to allocate the memory of a resource.
#[derive(Clone, Copy, Debug, PartialEq, Eq, Structural)]
pub struct MemoryAllocateInfo {
    pub allocation_size: u64,
    pub memory_type_index: u32,
}

/// A buffer on the device, with the memory bound to it.
#[derive(Clone, Copy, Debug, PartialEq, Eq, Structural)]
pub struct Buffer {
    /// The number of bytes the buffer holds.
    pub size: u64,
    /// Whether the buffer was destroyed.
    pub destroyed: bool,
}

impl Buffer {
    /// How to allocate the memory for a buffer with the given requirements:
    /// all of the size it asks for, from the first memory type that it
    /// allows and that has the properties asked for.
    pub fn allocation(
        memory_req: &vk::MemoryRequirements,
        memory_prop: &vk::PhysicalDeviceMemoryProperties,
        properties: u32,
    ) -> (info: Result<MemoryAllocateInfo, BufferError>)
        requires
            memory_prop.memory_types@.len() <= vk::MAX_MEMORY_TYPES,
        ensures
            match info {
                Ok(info) => {
                    &&& info.allocation_size == memory_req.size
                    &&& super::memory_type_fits(
                        memory_req.memory_type_bits,
                        memory_prop.memory_types@,
                        properties,
                        info.memory_type_index as int,
                    )
                    &&& forall|j: int|
                        0 <= j < info.memory_type_index ==> !super::memory_type_fits(
                            memory_req.memory_type_bits,
                            memory_prop.memory_types@,
                            properties,
                            j,
                        )
                },
                Err(e) => {
                    &&& e == BufferError::NoSuitableMemoryType
                    &&& forall|j: int|
                        0 <= j < memory_prop.memory_types@.len() ==> !super::memory_type_fits(
                            memory_req.memory_type_bits,
                            memory_prop.memory_types@,
                            properties,
                            j,
                        )
                },
            },
    {
        match find_memorytype_index(memory_req, memory_prop, properties) {
            Some(index) => Ok(
                MemoryAllocateInfo { allocation_size: memory_req.size, memory_type_index: index },
            ),
            None => Err(BufferError::NoSuitableMemoryType),
        }
    }

    /// A live buffer of `size` bytes.
    pub fn new(size: u64) -> (buffer: Self)
        ensures
            buffer == (Buffer { size, destroyed: false }),
    {
        Buffer { size, destroyed: false }
    }

    /// Whether `bytes` bytes of data fit the buffer.
    pub fn holds(&self, bytes: u64) -> (fits: bool)
        ensures
            fits == (bytes <= self.size),
    {
        bytes <= self.size
    }

    /// Marks the buffer destroyed. A buffer is destroyed once: the device
    /// has to be idle by then.
    pub fn destroy(&mut self)
        requires
            !old(self).destroyed,
        ensures
            *final(self) == (Buffer { destroyed: true, ..*old(self) }),
    {
        self.destroyed = true;
    }
}

} // verus!
