//! The Vulkan logical device: its queues per role, and the shader modules
//! made on it.

use crate::backend::vulkan::instance::MESH_SHADER_EXTENSION;
use crate::backend::vulkan::physical_device::VulkanPhysicalDevice;
use crate::backend::vulkan::queue::VulkanQueue;
use crate::backend::vulkan::shader_module::VulkanShaderModule;
use crate::queue::Queue;
use crate::shader_module::{ShaderDesc, ShaderModule};
use crate::util::{compile_hlsl, description_nul};
use crate::Error;
use std::sync::Arc;
use vstd::prelude::*;

verus! {

/// The extension for presenting to a surface.
pub const SWAPCHAIN_EXTENSION: &'static str = "VK_KHR_swapchain";

/// The record of a logical device on one adapter.
///
/// It holds the queue family of each role and the queue that serves the role,
/// the families in which queues are created, each once, and the device
/// extensions that are enabled.
pub struct VulkanDevice {
    pub physical_device: Arc<VulkanPhysicalDevice>,
    pub direct_queue_family_index: u32,
    pub compute_queue_family_index: u32,
    pub transfer_queue_family_index: u32,
    pub queue_family_indices: Vec<u32>,
    pub enabled_extension_names: Vec<String>,
    pub direct_queue: Arc<VulkanQueue>,
    pub compute_queue: Arc<VulkanQueue>,
    pub transfer_queue: Arc<VulkanQueue>,
}

/// The families of the three roles, each once, in the order direct, compute,
/// transfer.
pub open spec fn distinct_families(direct: u32, compute: u32, transfer: u32) -> Seq<u32> {
    let first = seq![direct];
    let second = if compute != direct {
        first.push(compute)
    } else {
        first
    };
    if transfer != direct && transfer != compute {
        second.push(transfer)
    } else {
        second
    }
}

/// The device extensions that every logical device enables.
pub open spec fn device_extensions() -> Seq<Seq<char>> {
    seq![SWAPCHAIN_EXTENSION@, MESH_SHADER_EXTENSION@]
}

/// The families in which queues are created hold each role's family, and
/// none twice.
pub proof fn lemma_distinct_families(direct: u32, compute: u32, transfer: u32)
    ensures
        distinct_families(direct, compute, transfer).no_duplicates(),
        forall|family: u32|
            distinct_families(direct, compute, transfer).contains(family) <==> (family == direct
                || family == compute || family == transfer),
{
    let families = distinct_families(direct, compute, transfer);
    assert forall|family: u32|
        (family == direct || family == compute || family == transfer) implies families.contains(
        family,
    ) by {
        if family == direct {
            assert(families[0] == family);
        } else if family == compute {
            assert(families[1] == family);
        } else if compute != direct {
            assert(families[2] == family);
        } else {
            assert(families[1] == family);
        }
    }
}

/// Two roles share a queue exactly when they share a family: every role has
/// its queue, and roles with different families have different queues.
pub proof fn lemma_queues_alias(device: VulkanDevice)
    requires
        device.well_formed(),
    ensures
        *device.direct_queue == *device.compute_queue <==> device.direct_queue_family_index
            == device.compute_queue_family_index,
        *device.direct_queue == *device.transfer_queue <==> device.direct_queue_family_index
            == device.transfer_queue_family_index,
        *device.compute_queue == *device.transfer_queue <==> device.compute_queue_family_index
            == device.transfer_queue_family_index,
        device.queue_family_indices@.no_duplicates(),
        forall|family: u32|
            device.queue_family_indices@.contains(family) <==> (family
                == device.direct_queue_family_index || family == device.compute_queue_family_index
                || family == device.transfer_queue_family_index),
{
    lemma_distinct_families(
        device.direct_queue_family_index,
        device.compute_queue_family_index,
        device.transfer_queue_family_index,
    );
}

impl VulkanDevice {
    /// The record is consistent: each role's queue is the first queue of the
    /// role's family, and queues are created in exactly the families of the
    /// roles.
    pub open spec fn well_formed(&self) -> bool {
        &&& *self.direct_queue == (VulkanQueue {
            family_index: self.direct_queue_family_index,
            queue_index: 0,
        })
        &&& *self.compute_queue == (VulkanQueue {
            family_index: self.compute_queue_family_index,
            queue_index: 0,
        })
        &&& *self.transfer_queue == (VulkanQueue {
            family_index: self.transfer_queue_family_index,
            queue_index: 0,
        })
        &&& self.queue_family_indices@ == distinct_families(
            self.direct_queue_family_index,
            self.compute_queue_family_index,
            self.transfer_queue_family_index,
        )
        &&& self.enabled_extension_names@.map_values(|name: String| name@) == device_extensions()
    }

    /// The record of a logical device on the adapter, with the given family
    /// for each role.
    pub fn new(
        physical_device: Arc<VulkanPhysicalDevice>,
        direct_queue_family_index: u32,
        compute_queue_family_index: u32,
        transfer_queue_family_index: u32,
    ) -> (device: Result<Self, Error>)
        ensures
            device matches Ok(device) && device.well_formed() && device.physical_device
                == physical_device && device.direct_queue_family_index
                == direct_queue_family_index && device.compute_queue_family_index
                == compute_queue_family_index && device.transfer_queue_family_index
                == transfer_queue_family_index,
    {
        let mut queue_family_indices: Vec<u32> = Vec::new();
        queue_family_indices.push(direct_queue_family_index);
        if compute_queue_family_index != direct_queue_family_index {
            queue_family_indices.push(compute_queue_family_index);
        }
        if transfer_queue_family_index != direct_queue_family_index && transfer_queue_family_index
            != compute_queue_family_index {
            queue_family_indices.push(transfer_queue_family_index);
        }
        let mut enabled_extension_names: Vec<String> = Vec::new();
        enabled_extension_names.push(SWAPCHAIN_EXTENSION.to_owned());
        enabled_extension_names.push(MESH_SHADER_EXTENSION.to_owned());
        proof {
            assert(enabled_extension_names@.map_values(|name: String| name@)
                =~= device_extensions());
        }
        Ok(
            Self {
                physical_device,
                direct_queue_family_index,
                compute_queue_family_index,
                transfer_queue_family_index,
                queue_family_indices,
                enabled_extension_names,
                direct_queue: Arc::new(VulkanQueue::new(direct_queue_family_index, 0)),
                compute_queue: Arc::new(VulkanQueue::new(compute_queue_family_index, 0)),
                transfer_queue: Arc::new(VulkanQueue::new(transfer_queue_family_index, 0)),
            },
        )
    }

    /// Compiles the description to SPIR-V and wraps the code into a shader
    /// module of this device.
    ///
    /// A description with a NUL character in its name, its entry point or a
    /// define is refused. Otherwise the compiler decides between a module of
    /// this device and its own error.
    pub fn create_shader_module(self: &Arc<Self>, desc: &ShaderDesc) -> (module: Result<
        ShaderModule,
        Error,
    >)
        ensures
            description_nul(desc) matches Some(position) ==> exists|at: usize|
                module == Err::<ShaderModule, Error>(Error::NulError(at)) && at == position,
            description_nul(desc) is None ==> {
                ||| module matches Ok(ShaderModule::Vulkan(module)) && *module.device == **self
                ||| module matches Err(Error::HassleRs(_))
            },
    {
        let spir_v = match compile_hlsl(desc, true) {
            Ok(bytecode) => bytecode,
            Err(error) => {
                return Err(error);
            },
        };
        match VulkanShaderModule::new(self.clone(), &spir_v) {
            Ok(module) => Ok(ShaderModule::Vulkan(module)),
            Err(error) => Err(error),
        }
    }

    /// The queue for graphics, compute and transfer work.
    pub fn get_direct_queue(&self) -> (queue: Queue)
        ensures
            queue == Queue::Vulkan(self.direct_queue),
    {
        Queue::Vulkan(self.direct_queue.clone())
    }

    /// The queue for compute work.
    pub fn get_compute_queue(&self) -> (queue: Queue)
        ensures
            queue == Queue::Vulkan(self.compute_queue),
    {
        Queue::Vulkan(self.compute_queue.clone())
    }

    /// The queue for transfer work.
    pub fn get_transfer_queue(&self) -> (queue: Queue)
        ensures
            queue == Queue::Vulkan(self.transfer_queue),
    {
        Queue::Vulkan(self.transfer_queue.clone())
    }
}

} // verus!
