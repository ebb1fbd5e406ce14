//! The graphics back end: what it decides, on plain values. The calls into
//! the graphics API themselves are made by the caller.

use vstd::prelude::*;

pub mod buffer;
pub mod device;
pub mod renderer;
pub mod shader;
pub mod swapchain;
pub mod vk;

verus! {

/// Whether memory type `index` is allowed by `memory_type_bits` and has every
/// property in `flags`.
pub open spec fn memory_type_fits(
    memory_type_bits: u32,
    memory_types: Seq<vk::MemoryType>,
    flags: u32,
    index: int,
) -> bool {
    &&& 0 <= index < memory_types.len()
    &&& index < 32
    &&& (1u32 << (index as u32)) & memory_type_bits != 0
    &&& memory_types[index].property_flags & flags == flags
}

/// The first memory type that the requirements allow and that has every
/// property in `flags`; `None` where there is none.
pub fn find_memorytype_index(
    memory_req: &vk::MemoryRequirements,
    memory_prop: &vk::PhysicalDeviceMemoryProperties,
    flags: u32,
) -> (found: Option<u32>)
    requires
        memory_prop.memory_types@.len() <= vk::MAX_MEMORY_TYPES,
    ensures
        match found {
            Some(index) => {
                &&& memory_type_fits(
                    memory_req.memory_type_bits,
                    memory_prop.memory_types@,
                    flags,
                    index as int,
                )
                &&& forall|j: int|
                    0 <= j < index ==> !memory_type_fits(
                        memory_req.memory_type_bits,
                        memory_prop.memory_types@,
                        flags,
                        j,
                    )
            },
            None => forall|j: int|
                0 <= j < memory_prop.memory_types@.len() ==> !memory_type_fits(
                    memory_req.memory_type_bits,
                    memory_prop.memory_types@,
                    flags,
                    j,
                ),
        },
{
    let mut index: u32 = 0;
    while (index as usize) < memory_prop.memory_types.len()
        invariant
            index <= memory_prop.memory_types@.len() <= 32,
            forall|j: int|
                0 <= j < index ==> !memory_type_fits(
                    memory_req.memory_type_bits,
                    memory_prop.memory_types@,
                    flags,
                    j,
                ),
        decreases memory_prop.memory_types@.len() - index,
    {
        let memory_type = &memory_prop.memory_types[index as usize];
        if (1u32 << index) & memory_req.memory_type_bits != 0 && memory_type.property_flags & flags
            == flags {
            return Some(index);
        }
        index += 1;
    }
    None
}

} // verus!
