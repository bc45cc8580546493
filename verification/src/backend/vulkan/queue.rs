//! Queues of a Vulkan device.

use vstd::prelude::*;

verus! {

/// One hardware queue of a logical device, known by the family it belongs to
/// and its index in that family.
#[derive(Copy, Clone, Debug, PartialEq, Eq, Hash, Structural)]
pub struct VulkanQueue {
    pub family_index: u32,
    pub queue_index: u32,
}

impl VulkanQueue {
    pub fn new(family_index: u32, queue_index: u32) -> (queue: Self)
        ensures
            queue == (VulkanQueue { family_index, queue_index }),
    {
        Self { family_index, queue_index }
    }
}

} // verus!
