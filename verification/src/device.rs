//! Logical devices, whatever the backend.

use crate::backend::metal::device::MetalDevice;
use crate::backend::metal::translation::{ShaderTranslation, TranslationState};
use crate::backend::vulkan::device::VulkanDevice;
use crate::queue::Queue;
use crate::shader_module::{ShaderDesc, ShaderModule};
use crate::util::description_nul;
use crate::{BackendType, Error};
use std::sync::Arc;
use vstd::prelude::*;

verus! {

/// A logical device on one adapter.
pub enum Device {
    Vulkan(Arc<VulkanDevice>),
    Metal(Arc<MetalDevice>),
}

/// What the creation of a shader module has come to when the shader is
/// compiled.
pub enum ShaderCreation {
    /// The module is made: the device takes the compiled bytecode as it is.
    Created(ShaderModule),
    /// The compiled bytecode has to be translated for the device; the module
    /// is what the translation ends in.
    Translating(ShaderTranslation),
}

impl Device {
    /// The backend of the device.
    pub open spec fn backend(&self) -> BackendType {
        match self {
            Device::Vulkan(_) => BackendType::Vulkan,
            Device::Metal(_) => BackendType::Metal,
        }
    }

    /// Compiles the description for the backend of the device: to a shader
    /// module, or to bytecode whose translation into one is set up.
    ///
    /// A description with a NUL character in its name, its entry point or a
    /// define is refused. Otherwise the compiler decides between its bytecode
    /// and its own error.
    pub fn create_shader_module(&self, desc: &ShaderDesc) -> (creation: Result<
        ShaderCreation,
        Error,
    >)
        ensures
            description_nul(desc) matches Some(position) ==> exists|at: usize|
                creation == Err::<ShaderCreation, Error>(Error::NulError(at)) && at == position,
            description_nul(desc) is None ==> {
                ||| creation matches Err(Error::HassleRs(_))
                ||| {
                    &&& self matches Device::Vulkan(device)
                    &&& creation matches Ok(ShaderCreation::Created(ShaderModule::Vulkan(module)))
                    &&& *module.device == **device
                }
                ||| {
                    &&& self matches Device::Metal(device)
                    &&& creation matches Ok(ShaderCreation::Translating(translation))
                    &&& translation@ == TranslationState::initial()
                    &&& *translation.device == **device
                    &&& translation.kind == desc.kind
                    &&& translation.entry_point == desc.entry_point
                }
            },
    {
        match self {
            Device::Vulkan(vulkan_device) => match vulkan_device.create_shader_module(desc) {
                Ok(module) => Ok(ShaderCreation::Created(module)),
                Err(error) => Err(error),
            },
            Device::Metal(metal_device) => match metal_device.create_shader_module(desc) {
                Ok(translation) => Ok(ShaderCreation::Translating(translation)),
                Err(error) => Err(error),
            },
        }
    }
    /// The queue that serves the direct role.
    pub open spec fn spec_direct_queue(&self) -> Queue {
        match self {
            Device::Vulkan(device) => Queue::Vulkan(device.direct_queue),
            Device::Metal(device) => Queue::Metal(device.queue),
        }
    }

    /// The queue that serves the compute role.
    pub open spec fn spec_compute_queue(&self) -> Queue {
        match self {
            Device::Vulkan(device) => Queue::Vulkan(device.compute_queue),
            Device::Metal(device) => Queue::Metal(device.queue),
        }
    }

    /// The queue that serves the transfer role.
    pub open spec fn spec_transfer_queue(&self) -> Queue {
        match self {
            Device::Vulkan(device) => Queue::Vulkan(device.transfer_queue),
            Device::Metal(device) => Queue::Metal(device.queue),
        }
    }

    /// The queue for graphics, compute and transfer work.
    pub fn get_direct_queue(&self) -> (queue: Queue)
        ensures
            queue == self.spec_direct_queue(),
    {
        match self {
            Device::Vulkan(vulkan_device) => vulkan_device.get_direct_queue(),
            Device::Metal(metal_device) => metal_device.get_direct_queue(),
        }
    }

    /// The queue for compute work.
    pub fn get_compute_queue(&self) -> (queue: Queue)
        ensures
            queue == self.spec_compute_queue(),
    {
        match self {
            Device::Vulkan(vulkan_device) => vulkan_device.get_compute_queue(),
            Device::Metal(metal_device) => metal_device.get_compute_queue(),
        }
    }

    /// The queue for transfer work.
    pub fn get_transfer_queue(&self) -> (queue: Queue)
        ensures
            queue == self.spec_transfer_queue(),
    {
        match self {
            Device::Vulkan(vulkan_device) => vulkan_device.get_transfer_queue(),
            Device::Metal(metal_device) => metal_device.get_transfer_queue(),
        }
    }

    /// The Vulkan record of the device. To ask it of a device of another
    /// backend is an error of the caller.
    pub fn as_vulkan_device(&self) -> (device: &Arc<VulkanDevice>)
        requires
            self is Vulkan,
        ensures
            *self == Device::Vulkan(*device),
    {
        match self {
            Device::Vulkan(vulkan_device) => vulkan_device,
            _ => unreached(),
        }
    }

    /// The Metal record of the device. To ask it of a device of another
    /// backend is an error of the caller.
    pub fn as_metal_device(&self) -> (device: &Arc<MetalDevice>)
        requires
            self is Metal,
        ensures
            *self == Device::Metal(*device),
    {
        match self {
            Device::Metal(metal_device) => metal_device,
            _ => unreached(),
        }
    }
}

} // verus!
