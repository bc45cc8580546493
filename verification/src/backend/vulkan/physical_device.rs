//! Adapters as a Vulkan driver reports them, and the ones that are surfaced.

use crate::backend::vulkan::instance::{VulkanInstance, MESH_SHADER_EXTENSION};
use crate::Error;
use std::sync::Arc;
use vstd::prelude::*;

verus! {

/// The properties that a driver reports of an adapter.
pub struct VulkanPhysicalDeviceProperties {
    pub api_version: u32,
    pub driver_version: u32,
    pub vendor_id: u32,
    pub device_id: u32,
    pub device_type: i32,
    pub device_name: String,
}

/// One adapter as enumerated: its handle, its properties, and the names of
/// the device extensions it supports or the result code with which the query
/// for them failed.
pub struct VulkanAdapter {
    pub handle: u64,
    pub properties: VulkanPhysicalDeviceProperties,
    pub extension_names: Result<Vec<String>, i32>,
}

impl VulkanAdapter {
    /// The adapter shows the extension by which meshes are shaded.
    pub open spec fn has_mesh_shader(&self) -> bool {
        match self.extension_names {
            Ok(names) => names_hold_mesh_shader(names@),
            Err(_) => false,
        }
    }
}

/// One of the names is that of the mesh-shading extension.
pub open spec fn names_hold_mesh_shader(names: Seq<String>) -> bool {
    exists|i: int| 0 <= i < names.len() && (#[trigger] names[i])@ == MESH_SHADER_EXTENSION@
}

/// An adapter that was surfaced, with the instance it was found through.
pub struct VulkanPhysicalDevice {
    pub instance: Arc<VulkanInstance>,
    pub physical_device: u64,
    pub properties: VulkanPhysicalDeviceProperties,
    pub name: String,
}

impl VulkanPhysicalDevice {
    /// The record of the adapter with this handle and these properties. Its
    /// display name is the device name of the properties.
    pub fn new(
        instance: Arc<VulkanInstance>,
        physical_device: u64,
        properties: VulkanPhysicalDeviceProperties,
    ) -> (device: Result<Self, Error>)
        ensures
            device matches Ok(device) && device.instance == instance && device.physical_device
                == physical_device && device.properties == properties && device.name
                == properties.device_name,
    {
        let name = properties.device_name.clone();
        Ok(Self { instance, physical_device, properties, name })
    }
}

} // verus!
