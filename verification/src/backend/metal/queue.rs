//! The command queue of a Metal device.

use crate::Error;
use vstd::prelude::*;

verus! {

/// The command queue of a device, known by the registry id of that device.
#[derive(Copy, Clone, Debug, PartialEq, Eq, Hash, Structural)]
pub struct MetalQueue {
    pub registry_id: u64,
}

impl MetalQueue {
    pub fn new(registry_id: u64) -> (queue: Result<Self, Error>)
        ensures
            queue matches Ok(queue) && queue == (MetalQueue { registry_id }),
    {
        Ok(Self { registry_id })
    }
}

} // verus!
