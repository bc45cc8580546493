//! Adapters as Metal reports them, and the ones that are surfaced.

use crate::Error;
use vstd::prelude::*;

verus! {

/// One adapter as enumerated: its registry id, its name, and whether it
/// belongs to the GPU family that shades meshes.
pub struct MetalAdapter {
    pub registry_id: u64,
    pub name: String,
    pub supports_mesh_shading: bool,
}

/// An adapter that was surfaced.
pub struct MetalPhysicalDevice {
    pub registry_id: u64,
    pub name: String,
}

impl MetalPhysicalDevice {
    /// The record of an enumerated adapter.
    pub fn new(adapter: MetalAdapter) -> (device: Result<Self, Error>)
        ensures
            device matches Ok(device) && device.registry_id == adapter.registry_id && device.name
                == adapter.name,
    {
        Ok(Self { registry_id: adapter.registry_id, name: adapter.name })
    }
}

} // verus!
