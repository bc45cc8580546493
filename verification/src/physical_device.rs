//! Adapters, whatever the backend.

use crate::backend::metal::physical_device::MetalPhysicalDevice;
use crate::backend::vulkan::physical_device::VulkanPhysicalDevice;
use crate::BackendType;
use std::sync::Arc;
use vstd::prelude::*;

verus! {

/// One adapter that an instance surfaced.
pub enum PhysicalDevice {
    Vulkan(Arc<VulkanPhysicalDevice>),
    Metal(Arc<MetalPhysicalDevice>),
}

impl PhysicalDevice {
    /// The backend of the adapter.
    pub open spec fn backend(&self) -> BackendType {
        match self {
            PhysicalDevice::Vulkan(_) => BackendType::Vulkan,
            PhysicalDevice::Metal(_) => BackendType::Metal,
        }
    }
    /// The display name, as text.
    pub open spec fn spec_name(&self) -> Seq<char> {
        match self {
            PhysicalDevice::Vulkan(device) => device.name@,
            PhysicalDevice::Metal(device) => device.name@,
        }
    }

    /// The display name of the adapter.
    pub fn name(&self) -> (name: &str)
        ensures
            name@ == self.spec_name(),
    {
        match self {
            PhysicalDevice::Vulkan(vulkan_physical_device) => vulkan_physical_device.name.as_str(),
            PhysicalDevice::Metal(metal_physical_device) => metal_physical_device.name.as_str(),
        }
    }

    /// The Vulkan record of the adapter. To ask it of an adapter of another
    /// backend is an error of the caller.
    pub fn as_vulkan_physical_device(&self) -> (device: &Arc<VulkanPhysicalDevice>)
        requires
            self is Vulkan,
        ensures
            *self == PhysicalDevice::Vulkan(*device),
    {
        match self {
            PhysicalDevice::Vulkan(vulkan_physical_device) => vulkan_physical_device,
            _ => unreached(),
        }
    }

    /// The Metal record of the adapter. To ask it of an adapter of another
    /// backend is an error of the caller.
    pub fn as_metal_physical_device(&self) -> (device: &Arc<MetalPhysicalDevice>)
        requires
            self is Metal,
        ensures
            *self == PhysicalDevice::Metal(*device),
    {
        match self {
            PhysicalDevice::Metal(metal_physical_device) => metal_physical_device,
            _ => unreached(),
        }
    }
}

} // verus!
