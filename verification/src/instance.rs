//! Instances, whatever the backend, and the descriptions they are made from.

use crate::backend::metal::instance::{describes_metal, surfaced_metal, MetalInstance};
use crate::backend::metal::physical_device::MetalAdapter;
use crate::backend::vulkan::instance::{
    describes, first_failure, instance_layers, instance_nul, platform_extensions, surfaced,
    VulkanInstance, API_VERSION_1_3,
};
use crate::backend::vulkan::physical_device::VulkanAdapter;
use crate::backend::vulkan::queue_family::{selection, QueueFamily};
use crate::device::Device;
use crate::physical_device::PhysicalDevice;
use crate::{BackendType, Error};
use std::sync::Arc;
use vstd::prelude::*;

verus! {

/// The connection to one backend.
#[derive(Clone)]
pub enum Instance {
    Vulkan(Arc<VulkanInstance>),
    Metal(Arc<MetalInstance>),
}

/// What the native enumeration of adapters gave, for either backend: for
/// Vulkan the adapters or the result code of the failure, for Metal the
/// adapters.
pub enum Enumeration {
    Vulkan(Result<Vec<VulkanAdapter>, i32>),
    Metal(Vec<MetalAdapter>),
}

impl Enumeration {
    /// The backend that was enumerated.
    pub open spec fn backend(&self) -> BackendType {
        match self {
            Enumeration::Vulkan(_) => BackendType::Vulkan,
            Enumeration::Metal(_) => BackendType::Metal,
        }
    }
}

impl Instance {
    /// The backend of the instance, as a specification.
    pub open spec fn spec_backend(&self) -> BackendType {
        match self {
            Instance::Vulkan(_) => BackendType::Vulkan,
            Instance::Metal(_) => BackendType::Metal,
        }
    }

    /// The instance of the backend that the description names.
    ///
    /// For Vulkan, a description with a NUL character in its engine name, its
    /// application name or a platform extension is refused, with the position
    /// of the first one. A Metal instance is made of any description.
    pub fn new(desc: &InstanceDesc) -> (instance: Result<Self, Error>)
        ensures
            match desc.backend_type {
                BackendType::Vulkan => match instance {
                    Ok(instance) => {
                        &&& instance_nul(desc) is None
                        &&& instance matches Instance::Vulkan(instance)
                        &&& instance.api_version == API_VERSION_1_3
                        &&& instance.engine_name == desc.engine_name
                        &&& instance.application_name == desc.application_name
                        &&& instance.enabled_layer_names@.map_values(|name: String| name@)
                            == instance_layers(desc.debug)
                        &&& instance.enabled_extension_names@ == platform_extensions(desc)
                    },
                    Err(error) => exists|position: usize|
                        error == Error::NulError(position) && instance_nul(desc) == Some(
                            position as int,
                        ),
                },
                BackendType::Metal => instance matches Ok(Instance::Metal(_)),
            },
    {
        match desc.backend_type {
            BackendType::Vulkan => match VulkanInstance::new(desc) {
                Ok(instance) => Ok(Instance::Vulkan(Arc::new(instance))),
                Err(error) => Err(error),
            },
            BackendType::Metal => match MetalInstance::new(desc) {
                Ok(instance) => Ok(Instance::Metal(Arc::new(instance))),
                Err(error) => Err(error),
            },
        }
    }

    /// The adapters that are surfaced, out of what the backend enumerated:
    /// exactly those that shade meshes, in the order of the enumeration, one
    /// record each, all of the backend of the instance. A failure of the
    /// enumeration is the result. To hand in the enumeration of another
    /// backend is an error of the caller.
    pub fn get_physical_devices(&self, enumerated: Enumeration) -> (devices: Result<
        Vec<PhysicalDevice>,
        Error,
    >)
        requires
            enumerated.backend() == self.spec_backend(),
        ensures
            devices matches Ok(devices) ==> forall|k: int|
                0 <= k < devices@.len() ==> (#[trigger] devices@[k]).backend()
                    == self.spec_backend(),
            match (self, enumerated) {
                (Instance::Vulkan(instance), Enumeration::Vulkan(Err(code))) => devices == Err::<
                    Vec<PhysicalDevice>,
                    Error,
                >(Error::VulkanError(code)),
                (
                    Instance::Vulkan(instance),
                    Enumeration::Vulkan(Ok(adapters)),
                ) => match first_failure(adapters@) {
                    Some(code) => devices == Err::<Vec<PhysicalDevice>, Error>(
                        Error::VulkanError(code),
                    ),
                    None => {
                        &&& devices matches Ok(devices)
                        &&& devices@.len() == surfaced(adapters@).len()
                        &&& forall|k: int|
                            0 <= k < devices@.len() ==> describes(
                                #[trigger] devices@[k],
                                **instance,
                                surfaced(adapters@)[k],
                            )
                    },
                },
                (Instance::Metal(_), Enumeration::Metal(adapters)) => {
                    &&& devices matches Ok(devices)
                    &&& devices@.len() == surfaced_metal(adapters@).len()
                    &&& forall|k: int|
                        0 <= k < devices@.len() ==> describes_metal(
                            #[trigger] devices@[k],
                            surfaced_metal(adapters@)[k],
                        )
                },
                _ => false,
            },
    {
        match self {
            Instance::Vulkan(vulkan_instance) => match enumerated {
                Enumeration::Vulkan(enumerated) => vulkan_instance.get_physical_devices(enumerated),
                _ => unreached(),
            },
            Instance::Metal(metal_instance) => match enumerated {
                Enumeration::Metal(adapters) => metal_instance.get_physical_devices(adapters),
                _ => unreached(),
            },
        }
    }

    /// A logical device on an adapter of the backend of the instance. The
    /// queue families matter for Vulkan alone: there the device is laid out
    /// over them, and there is none where no family takes graphics, compute
    /// and transfer work at once. To hand in an adapter of another backend is
    /// an error of the caller.
    pub fn create_device(
        &self,
        desc: &DeviceDesc,
        queue_family_properties: &Vec<QueueFamily>,
    ) -> (device: Result<Device, Error>)
        requires
            desc.physical_device.backend() == self.spec_backend(),
            self is Vulkan ==> queue_family_properties.len() <= u32::MAX,
        ensures
            match self {
                Instance::Vulkan(_) => match selection(queue_family_properties@) {
                    None => device == Err::<Device, Error>(Error::VulkanQueueFamilyNotFound),
                    Some((direct, compute, transfer)) => {
                        &&& device matches Ok(Device::Vulkan(device))
                        &&& device.well_formed()
                        &&& PhysicalDevice::Vulkan(device.physical_device) == *desc.physical_device
                        &&& device.direct_queue_family_index == direct
                        &&& device.compute_queue_family_index == compute
                        &&& device.transfer_queue_family_index == transfer
                    },
                },
                Instance::Metal(_) => device matches Ok(Device::Metal(device))
                    && PhysicalDevice::Metal(device.physical_device) == *desc.physical_device,
            },
    {
        match self {
            Instance::Vulkan(vulkan_instance) => vulkan_instance.create_device(
                desc,
                queue_family_properties,
            ),
            Instance::Metal(metal_instance) => metal_instance.create_device(desc),
        }
    }

    /// The backend of the instance.
    pub fn backend(&self) -> (backend: BackendType)
        ensures
            backend == self.spec_backend(),
    {
        match self {
            Instance::Vulkan(_) => BackendType::Vulkan,
            Instance::Metal(_) => BackendType::Metal,
        }
    }
}

/// What an instance is created from.
pub struct InstanceDesc {
    pub backend_type: BackendType,
    pub debug: bool,
    pub engine_name: String,
    pub application_name: String,
    pub window_handle: Option<WindowHandle>,
}

/// A platform window, known here by what it asks of an instance.
pub enum WindowHandle {
    /// An SDL window, with the names of the instance extensions it needs.
    Sdl(Vec<String>),
}

/// What a logical device is created from.
pub struct DeviceDesc<'a> {
    pub physical_device: &'a PhysicalDevice,
}

} // verus!
