//! Choosing the Vulkan memory type that backs the shared image.
use vstd::prelude::*;

use crate::vk;

verus! {

/// What a Vulkan image asks of the memory it is bound to.
#[derive(Clone, Copy, Debug, PartialEq, Eq, Structural)]
pub struct MemoryRequirements {
    pub size: u64,
    /// Bit `i` is set when memory type `i` can back the image.
    pub memory_type_bits: u32,
}

/// The memory types of a physical device: the property flags of each entry of the
/// table, of which the first `memory_type_count` are in use.
#[derive(Clone, Copy, Debug)]
pub struct MemoryProperties {
    pub memory_type_count: u32,
    pub property_flags: [u32; 32],
}

/// Whether every bit of `other` is set in `flags`.
pub open spec fn includes_flags(flags: u32, other: u32) -> bool {
    flags & other == other
}

/// Whether bit `index` of a memory type mask is set.
pub open spec fn type_allowed(memory_type_bits: u32, index: u32) -> bool {
    memory_type_bits & (1u32 << index) != 0
}

impl MemoryProperties {
    /// How many entries of the table describe a memory type.
    pub open spec fn len(self) -> int {
        if self.memory_type_count as int <= vk::MAX_MEMORY_TYPES as int {
            self.memory_type_count as int
        } else {
            vk::MAX_MEMORY_TYPES as int
        }
    }

    /// Whether memory type `index` can back an image that allows the types in
    /// `memory_type_bits`, and is local to the device.
    pub open spec fn suitable(self, memory_type_bits: u32, index: u32) -> bool {
        &&& index < self.len()
        &&& type_allowed(memory_type_bits, index)
        &&& includes_flags(
            self.property_flags@[index as int],
            vk::MEMORY_PROPERTY_DEVICE_LOCAL,
        )
    }

    /// Whether `index` is the lowest suitable memory type.
    pub open spec fn first_suitable(self, memory_type_bits: u32, index: u32) -> bool {
        &&& self.suitable(memory_type_bits, index)
        &&& forall|lower: u32| lower < index ==> !self.suitable(memory_type_bits, lower)
    }

    /// The lowest suitable memory type, where there is one.
    pub open spec fn lowest_suitable(self, memory_type_bits: u32) -> Option<u32> {
        if exists|index: u32| self.suitable(memory_type_bits, index) {
            Some(choose|index: u32| self.first_suitable(memory_type_bits, index))
        } else {
            None
        }
    }

    /// The lowest suitable memory type is a suitable one, and no lower one is.
    pub proof fn lowest_suitable_is_first(self, memory_type_bits: u32)
        ensures
            self.lowest_suitable(memory_type_bits) matches Some(index) ==> self.first_suitable(
                memory_type_bits,
                index,
            ),
    {
        if exists|index: u32| self.suitable(memory_type_bits, index) {
            let index = choose|index: u32| self.suitable(memory_type_bits, index);
            self.lemma_first_below(memory_type_bits, index);
        }
    }

    /// A memory type that is in the table, that the image allows by its bit, and that has
    /// the device-local bit is found, or a lower one is; and what is found is such a type.
    pub proof fn every_device_local_type_can_be_found(self, memory_type_bits: u32, index: u32)
        ensures
            ({
                let fits = |i: u32|
                    {
                        &&& i < 32
                        &&& i < self.memory_type_count
                        &&& memory_type_bits & (1u32 << i) != 0
                        &&& self.property_flags@[i as int] & 0x1 == 0x1
                    };
                let found = self.lowest_suitable(memory_type_bits);
                &&& fits(index) ==> found is Some && found->0 <= index
                &&& found is Some ==> fits(found->0)
                &&& found is None ==> !fits(index)
            }),
    {
        self.lowest_suitable_is_first(memory_type_bits);
        assert(index < 32 && index < self.memory_type_count && memory_type_bits & (1u32 << index)
            != 0 && self.property_flags@[index as int] & 0x1 == 0x1 ==> self.suitable(
            memory_type_bits,
            index,
        ));
    }

    proof fn lemma_first_below(self, memory_type_bits: u32, index: u32)
        requires
            self.suitable(memory_type_bits, index),
        ensures
            exists|first: u32| self.first_suitable(memory_type_bits, first),
        decreases index,
    {
        if !self.first_suitable(memory_type_bits, index) {
            let lower = choose|lower: u32|
                lower < index && self.suitable(memory_type_bits, lower);
            self.lemma_first_below(memory_type_bits, lower);
        }
    }
}

/// Calls `ash::vk::MemoryPropertyFlags::contains`.
///
/// Trusted: the flags keep the raw bits they are made from, and `contains` tells
/// whether the second set of bits is a subset of the first.
#[verifier::external_body]
fn flags_contain(flags: u32, other: u32) -> (contained: bool)
    ensures
        contained == includes_flags(flags, other),
{
    ash::vk::MemoryPropertyFlags::from_raw(flags).contains(
        ash::vk::MemoryPropertyFlags::from_raw(other),
    )
}

/// Finds the lowest memory type that the image allows and that is local to the
/// device.
pub fn find_memory_type(memory_type_bits: u32, properties: &MemoryProperties) -> (found: Option<
    u32,
>)
    ensures
        match found {
            Some(index) => properties.first_suitable(memory_type_bits, index),
            None => forall|index: u32| !properties.suitable(memory_type_bits, index),
        },
        found == properties.lowest_suitable(memory_type_bits),
{
    let mut index: u32 = 0;
    while index < properties.memory_type_count && index < 32
        invariant
            index <= properties.len(),
            forall|lower: u32| lower < index ==> !properties.suitable(memory_type_bits, lower),
        decreases properties.len() - index,
    {
        let is_type_supported = (memory_type_bits & (1u32 << index)) != 0;
        let has_required_properties = flags_contain(
            properties.property_flags[index as usize],
            vk::MEMORY_PROPERTY_DEVICE_LOCAL,
        );
        if is_type_supported && has_required_properties {
            assert(properties.first_suitable(memory_type_bits, index));
            return Some(index);
        }
        index = index + 1;
    }
    None
}

} // verus!
