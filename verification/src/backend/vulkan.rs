//! The backend whose native shader format is the intermediate bytecode.

pub mod device;
pub mod instance;
pub mod physical_device;
pub mod queue;
pub mod queue_family;
pub mod shader_module;

pub use crate::backend::vulkan::device::VulkanDevice;
pub use crate::backend::vulkan::instance::VulkanInstance;
pub use crate::backend::vulkan::physical_device::{
    VulkanAdapter, VulkanPhysicalDevice, VulkanPhysicalDeviceProperties,
};
pub use crate::backend::vulkan::queue::VulkanQueue;
pub use crate::backend::vulkan::queue_family::QueueFamily;
pub use crate::backend::vulkan::shader_module::VulkanShaderModule;
