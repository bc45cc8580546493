//! Queues, whatever the backend.

use crate::backend::metal::queue::MetalQueue;
use crate::backend::vulkan::queue::VulkanQueue;
use std::sync::Arc;
use vstd::prelude::*;

verus! {

/// A handle to one hardware queue.
pub enum Queue {
    Vulkan(Arc<VulkanQueue>),
    Metal(Arc<MetalQueue>),
}

/// The role under which a queue is used.
#[derive(Copy, Clone, Debug, PartialEq, Eq, Hash, Structural)]
pub enum QueueType {
    Direct,
    Compute,
    Transfer,
}

} // verus!
