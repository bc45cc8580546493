//! The Vulkan instance: what it is created with, which adapters it surfaces,
//! and how a logical device is laid out on one of them.

use crate::backend::vulkan::device::VulkanDevice;
use crate::backend::vulkan::physical_device::{
    names_hold_mesh_shader, VulkanAdapter, VulkanPhysicalDevice,
};
use crate::backend::vulkan::queue_family::{find_queue_family_indices, selection, QueueFamily};
use crate::device::Device;
use crate::filtered::{lemma_kept_place, place};
use crate::instance::{DeviceDesc, InstanceDesc, WindowHandle};
use crate::physical_device::PhysicalDevice;
use crate::text::{first_nul, nul_position};
use crate::Error;
use std::sync::Arc;
use vstd::prelude::*;

verus! {

/// Version 1.3 of the API, as Vulkan packs versions.
pub const API_VERSION_1_3: u32 = 4206592;

/// The layer that validates API use.
pub const VALIDATION_LAYER: &'static str = "VK_LAYER_KHRONOS_validation";

/// The device extension by which an adapter shows that it shades meshes.
pub const MESH_SHADER_EXTENSION: &'static str = "VK_EXT_mesh_shader";

/// The record of a Vulkan instance: the parameters it is created with.
pub struct VulkanInstance {
    pub api_version: u32,
    pub engine_name: String,
    pub application_name: String,
    pub enabled_layer_names: Vec<String>,
    pub enabled_extension_names: Vec<String>,
}

/// The instance extensions that the window of a description asks for.
pub open spec fn platform_extensions(desc: &InstanceDesc) -> Seq<String> {
    match desc.window_handle {
        Some(WindowHandle::Sdl(extensions)) => extensions@,
        None => Seq::empty(),
    }
}

/// Where the first NUL character of the first name that holds one stands.
pub open spec fn names_nul(names: Seq<String>) -> Option<int>
    decreases names.len(),
{
    if names.len() == 0 {
        None
    } else if first_nul(names[0]@) is Some {
        first_nul(names[0]@)
    } else {
        names_nul(names.drop_first())
    }
}

/// Where the first NUL character stands among the strings that an instance
/// is created with: the engine name, then the application name, then the
/// platform extensions in their order.
pub open spec fn instance_nul(desc: &InstanceDesc) -> Option<int> {
    if first_nul(desc.engine_name@) is Some {
        first_nul(desc.engine_name@)
    } else if first_nul(desc.application_name@) is Some {
        first_nul(desc.application_name@)
    } else {
        names_nul(platform_extensions(desc))
    }
}

/// The layers that an instance enables: the validation layer in debug mode,
/// none otherwise.
pub open spec fn instance_layers(debug: bool) -> Seq<Seq<char>> {
    if debug {
        seq![VALIDATION_LAYER@]
    } else {
        Seq::empty()
    }
}

/// The result code of the first adapter whose extensions could not be
/// queried.
pub open spec fn first_failure(adapters: Seq<VulkanAdapter>) -> Option<i32>
    decreases adapters.len(),
{
    if adapters.len() == 0 {
        None
    } else {
        match adapters[0].extension_names {
            Err(code) => Some(code),
            Ok(_) => first_failure(adapters.drop_first()),
        }
    }
}

/// The adapters that are surfaced: those that shade meshes, in the order of
/// the enumeration.
pub open spec fn surfaced(adapters: Seq<VulkanAdapter>) -> Seq<VulkanAdapter> {
    adapters.filter(|adapter: VulkanAdapter| adapter.has_mesh_shader())
}

/// `device` is the record of `adapter`, found through `instance`.
pub open spec fn describes(
    device: PhysicalDevice,
    instance: VulkanInstance,
    adapter: VulkanAdapter,
) -> bool {
    &&& device matches PhysicalDevice::Vulkan(device)
    &&& device.instance == instance
    &&& device.physical_device == adapter.handle
    &&& device.properties == adapter.properties
    &&& device.name == adapter.properties.device_name
}

/// The place of the adapter at index `i` among the surfaced ones: the number
/// of adapters before it that shade meshes.
pub open spec fn surfaced_place(adapters: Seq<VulkanAdapter>, i: int) -> int {
    place(adapters, |adapter: VulkanAdapter| adapter.has_mesh_shader(), i)
}

/// An adapter that does not shade meshes is never surfaced, and one that does
/// is surfaced exactly once: every surfaced adapter shades meshes, every
/// enumerated adapter that shades meshes stands at its place among the
/// surfaced ones, different adapters have different places, and there are as
/// many surfaced adapters as places.
pub proof fn lemma_surfaced_exactly_once(adapters: Seq<VulkanAdapter>)
    ensures
        forall|k: int|
            0 <= k < surfaced(adapters).len() ==> (#[trigger] surfaced(
                adapters,
            )[k]).has_mesh_shader(),
        forall|i: int|
            0 <= i < adapters.len() && (#[trigger] adapters[i]).has_mesh_shader() ==> {
                &&& 0 <= surfaced_place(adapters, i) < surfaced(adapters).len()
                &&& surfaced(adapters)[surfaced_place(adapters, i)] == adapters[i]
            },
        forall|i: int, j: int|
            0 <= i < j < adapters.len() && adapters[i].has_mesh_shader()
                ==> #[trigger] surfaced_place(adapters, i) < #[trigger] surfaced_place(
                adapters,
                j,
            ),
        surfaced(adapters).len() == surfaced_place(adapters, adapters.len() as int),
{
    let keep = |adapter: VulkanAdapter| adapter.has_mesh_shader();
    assert forall|i: int|
        0 <= i < adapters.len() && (#[trigger] adapters[i]).has_mesh_shader() implies {
        &&& 0 <= surfaced_place(adapters, i) < surfaced(adapters).len()
        &&& surfaced(adapters)[surfaced_place(adapters, i)] == adapters[i]
    } by {
        lemma_kept_place(adapters, keep, i);
    }
    assert forall|i: int, j: int|
        0 <= i < j < adapters.len()
            && adapters[i].has_mesh_shader() implies #[trigger] surfaced_place(adapters, i)
        < #[trigger] surfaced_place(adapters, j) by {
        lemma_kept_place(adapters, keep, i);
    }
    assert(adapters.take(adapters.len() as int) =~= adapters);
}

/// Whether one of the names is that of the mesh-shading extension.
fn has_mesh_shader_extension(names: &Vec<String>) -> (found: bool)
    ensures
        found == names_hold_mesh_shader(names@),
{
    let wanted = MESH_SHADER_EXTENSION.to_owned();
    let mut i: usize = 0;
    while i < names.len()
        invariant
            i <= names.len(),
            wanted@ == MESH_SHADER_EXTENSION@,
            forall|j: int| 0 <= j < i ==> (#[trigger] names@[j])@ != MESH_SHADER_EXTENSION@,
        decreases names.len() - i,
    {
        if names[i] == wanted {
            return true;
        }
        i += 1;
    }
    false
}

/// The result code of the first adapter whose extensions could not be
/// queried.
fn find_failure(adapters: &Vec<VulkanAdapter>) -> (failure: Option<i32>)
    ensures
        failure == first_failure(adapters@),
{
    let mut i: usize = 0;
    proof {
        assert(adapters@.subrange(0, adapters@.len() as int) =~= adapters@);
    }
    while i < adapters.len()
        invariant
            i <= adapters.len(),
            first_failure(adapters@) == first_failure(
                adapters@.subrange(i as int, adapters@.len() as int),
            ),
        decreases adapters.len() - i,
    {
        proof {
            let rest = adapters@.subrange(i as int, adapters@.len() as int);
            assert(rest.drop_first() =~= adapters@.subrange(i + 1, adapters@.len() as int));
        }
        if let Err(code) = &adapters[i].extension_names {
            return Some(*code);
        }
        i += 1;
    }
    None
}

/// A copy of the names, unless one of them holds a NUL character.
fn terminated_names(names: &Vec<String>) -> (copied: Result<Vec<String>, usize>)
    ensures
        match copied {
            Ok(list) => names_nul(names@) is None && list@ == names@,
            Err(position) => names_nul(names@) == Some(position as int),
        },
{
    let mut list: Vec<String> = Vec::new();
    let mut i: usize = 0;
    proof {
        assert(names@.subrange(0, names@.len() as int) =~= names@);
    }
    while i < names.len()
        invariant
            i <= names.len(),
            list@ == names@.subrange(0, i as int),
            names_nul(names@) == names_nul(names@.subrange(i as int, names@.len() as int)),
        decreases names.len() - i,
    {
        proof {
            let rest = names@.subrange(i as int, names@.len() as int);
            assert(rest.drop_first() =~= names@.subrange(i + 1, names@.len() as int));
        }
        if let Some(position) = nul_position(names[i].as_str()) {
            return Err(position);
        }
        list.push(names[i].clone());
        i += 1;
    }
    Ok(list)
}

impl VulkanInstance {
    /// The parameters of the instance that a description asks for.
    ///
    /// A description with a NUL character in its engine name, its application
    /// name or a platform extension is refused, with the position of the
    /// first one.
    pub fn new(desc: &InstanceDesc) -> (instance: Result<Self, Error>)
        ensures
            match instance {
                Ok(instance) => {
                    &&& instance_nul(desc) is None
                    &&& instance.api_version == API_VERSION_1_3
                    &&& instance.engine_name == desc.engine_name
                    &&& instance.application_name == desc.application_name
                    &&& instance.enabled_layer_names@.map_values(|name: String| name@)
                        == instance_layers(desc.debug)
                    &&& instance.enabled_extension_names@ == platform_extensions(desc)
                },
                Err(error) => exists|position: usize|
                    error == Error::NulError(position) && instance_nul(desc) == Some(
                        position as int,
                    ),
            },
    {
        if let Some(position) = nul_position(desc.engine_name.as_str()) {
            return Err(Error::NulError(position));
        }
        if let Some(position) = nul_position(desc.application_name.as_str()) {
            return Err(Error::NulError(position));
        }
        let mut enabled_layer_names: Vec<String> = Vec::new();
        if desc.debug {
            enabled_layer_names.push(VALIDATION_LAYER.to_owned());
        }
        let enabled_extension_names = match &desc.window_handle {
            Some(WindowHandle::Sdl(extensions)) => {
                match terminated_names(extensions) {
                    Ok(list) => list,
                    Err(position) => {
                        return Err(Error::NulError(position));
                    },
                }
            },
            None => Vec::new(),
        };
        Ok(
            Self {
                api_version: API_VERSION_1_3,
                engine_name: desc.engine_name.clone(),
                application_name: desc.application_name.clone(),
                enabled_layer_names,
                enabled_extension_names,
            },
        )
    }

    /// The adapters that are surfaced, out of what the driver enumerated.
    ///
    /// An adapter is kept exactly when it shows the mesh-shading extension;
    /// the kept ones come in the order of the enumeration, one record each.
    /// Where the enumeration failed, or the query for an adapter's
    /// extensions, the result is that failure: of the enumeration first,
    /// else of the first adapter in order.
    pub fn get_physical_devices(
        self: &Arc<VulkanInstance>,
        enumerated: Result<Vec<VulkanAdapter>, i32>,
    ) -> (devices: Result<Vec<PhysicalDevice>, Error>)
        ensures
            match enumerated {
                Err(code) => devices == Err::<Vec<PhysicalDevice>, Error>(Error::VulkanError(code)),
                Ok(adapters) => match first_failure(adapters@) {
                    Some(code) => devices == Err::<Vec<PhysicalDevice>, Error>(
                        Error::VulkanError(code),
                    ),
                    None => {
                        &&& devices matches Ok(devices)
                        &&& devices@.len() == surfaced(adapters@).len()
                        &&& forall|k: int|
                            0 <= k < devices@.len() ==> describes(
                                #[trigger] devices@[k],
                                **self,
                                surfaced(adapters@)[k],
                            )
                    },
                },
            },
    {
        let adapters = match enumerated {
            Ok(adapters) => adapters,
            Err(code) => {
                return Err(Error::VulkanError(code));
            },
        };
        if let Some(code) = find_failure(&adapters) {
            return Err(Error::VulkanError(code));
        }
        let ghost all = adapters@;
        let mut devices: Vec<PhysicalDevice> = Vec::new();
        for adapter in iter: adapters
            invariant
                iter.seq() == all,
                devices@.len() == surfaced(all.take(iter.index() as int)).len(),
                forall|k: int|
                    0 <= k < devices@.len() ==> describes(
                        #[trigger] devices@[k],
                        **self,
                        surfaced(all.take(iter.index() as int))[k],
                    ),
        {
            let ghost done = iter.index() as int;
            proof {
                reveal(Seq::filter);
                assert(all.take(done + 1).drop_last() =~= all.take(done));
            }
            let supported = match &adapter.extension_names {
                Ok(names) => has_mesh_shader_extension(names),
                Err(_) => false,
            };
            if supported {
                let device = VulkanPhysicalDevice::new(
                    self.clone(),
                    adapter.handle,
                    adapter.properties,
                );
                match device {
                    Ok(device) => devices.push(PhysicalDevice::Vulkan(Arc::new(device))),
                    Err(error) => {
                        return Err(error);
                    },
                }
            }
        }
        proof {
            assert(all.take(all.len() as int) =~= all);
        }
        Ok(devices)
    }

    /// A logical device on an adapter of this backend, laid out over the
    /// adapter's queue families.
    ///
    /// Where no family takes graphics, compute and transfer work at once,
    /// there is no device. Otherwise each role gets the family that the
    /// selection gives it, and queues are created once in each of those
    /// families. To hand in an adapter of another backend is an error of the
    /// caller.
    pub fn create_device(
        &self,
        desc: &DeviceDesc,
        queue_family_properties: &Vec<QueueFamily>,
    ) -> (device: Result<Device, Error>)
        requires
            desc.physical_device is Vulkan,
            queue_family_properties.len() <= u32::MAX,
        ensures
            match selection(queue_family_properties@) {
                None => device == Err::<Device, Error>(Error::VulkanQueueFamilyNotFound),
                Some((direct, compute, transfer)) => {
                    &&& device matches Ok(Device::Vulkan(device))
                    &&& device.well_formed()
                    &&& PhysicalDevice::Vulkan(device.physical_device) == *desc.physical_device
                    &&& device.direct_queue_family_index == direct
                    &&& device.compute_queue_family_index == compute
                    &&& device.transfer_queue_family_index == transfer
                },
            },
    {
        let vulkan_physical_device = desc.physical_device.as_vulkan_physical_device().clone();
        let (direct_queue_family_index, compute_queue_family_index, transfer_queue_family_index) =
            match find_queue_family_indices(queue_family_properties.as_slice()) {
            Some(indices) => indices,
            None => {
                return Err(Error::VulkanQueueFamilyNotFound);
            },
        };
        match VulkanDevice::new(
            vulkan_physical_device,
            direct_queue_family_index,
            compute_queue_family_index,
            transfer_queue_family_index,
        ) {
            Ok(device) => Ok(Device::Vulkan(Arc::new(device))),
            Err(error) => Err(error),
        }
    }
}

} // verus!
