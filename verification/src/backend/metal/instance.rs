//! The Metal instance: which adapters it surfaces, and the logical devices
//! made on them.

use crate::backend::metal::device::MetalDevice;
use crate::backend::metal::physical_device::{MetalAdapter, MetalPhysicalDevice};
use crate::backend::metal::queue::MetalQueue;
use crate::device::Device;
use crate::filtered::{lemma_kept_place, place};
use crate::instance::{DeviceDesc, InstanceDesc};
use crate::physical_device::PhysicalDevice;
use crate::Error;
use std::sync::Arc;
use vstd::prelude::*;

verus! {

/// The record of a Metal instance. Metal needs no connection of its own.
pub struct MetalInstance {}

/// The adapters that are surfaced: those that shade meshes, in the order of
/// the enumeration.
pub open spec fn surfaced_metal(adapters: Seq<MetalAdapter>) -> Seq<MetalAdapter> {
    adapters.filter(|adapter: MetalAdapter| adapter.supports_mesh_shading)
}

/// `device` is the record of `adapter`.
pub open spec fn describes_metal(device: PhysicalDevice, adapter: MetalAdapter) -> bool {
    &&& device matches PhysicalDevice::Metal(device)
    &&& device.registry_id == adapter.registry_id
    &&& device.name == adapter.name
}

/// The place of the adapter at index `i` among the surfaced ones: the number
/// of adapters before it that shade meshes.
pub open spec fn surfaced_metal_place(adapters: Seq<MetalAdapter>, i: int) -> int {
    place(adapters, |adapter: MetalAdapter| adapter.supports_mesh_shading, i)
}

/// An adapter that does not shade meshes is never surfaced, and one that does
/// is surfaced exactly once: every surfaced adapter shades meshes, every
/// enumerated adapter that shades meshes stands at its place among the
/// surfaced ones, different adapters have different places, and there are as
/// many surfaced adapters as places.
pub proof fn lemma_surfaced_metal_exactly_once(adapters: Seq<MetalAdapter>)
    ensures
        forall|k: int|
            0 <= k < surfaced_metal(adapters).len() ==> (#[trigger] surfaced_metal(
                adapters,
            )[k]).supports_mesh_shading,
        forall|i: int|
            0 <= i < adapters.len() && (#[trigger] adapters[i]).supports_mesh_shading ==> {
                &&& 0 <= surfaced_metal_place(adapters, i) < surfaced_metal(adapters).len()
                &&& surfaced_metal(adapters)[surfaced_metal_place(adapters, i)] == adapters[i]
            },
        forall|i: int, j: int|
            0 <= i < j < adapters.len() && adapters[i].supports_mesh_shading
                ==> #[trigger] surfaced_metal_place(adapters, i) < #[trigger] surfaced_metal_place(
                adapters,
                j,
            ),
        surfaced_metal(adapters).len() == surfaced_metal_place(adapters, adapters.len() as int),
{
    let keep = |adapter: MetalAdapter| adapter.supports_mesh_shading;
    assert forall|i: int|
        0 <= i < adapters.len() && (#[trigger] adapters[i]).supports_mesh_shading implies {
        &&& 0 <= surfaced_metal_place(adapters, i) < surfaced_metal(adapters).len()
        &&& surfaced_metal(adapters)[surfaced_metal_place(adapters, i)] == adapters[i]
    } by {
        lemma_kept_place(adapters, keep, i);
    }
    assert forall|i: int, j: int|
        0 <= i < j < adapters.len()
            && adapters[i].supports_mesh_shading implies #[trigger] surfaced_metal_place(
        adapters,
        i,
    ) < #[trigger] surfaced_metal_place(adapters, j) by {
        lemma_kept_place(adapters, keep, i);
    }
    assert(adapters.take(adapters.len() as int) =~= adapters);
}

impl MetalInstance {
    pub fn new(desc: &InstanceDesc) -> (instance: Result<Self, Error>)
        ensures
            instance is Ok,
    {
        Ok(Self {  })
    }

    /// The adapters that are surfaced, out of what Metal enumerated.
    ///
    /// An adapter is kept exactly when it belongs to the GPU family that
    /// shades meshes; the kept ones come in the order of the enumeration, one
    /// record each.
    pub fn get_physical_devices(self: &Arc<Self>, adapters: Vec<MetalAdapter>) -> (devices: Result<
        Vec<PhysicalDevice>,
        Error,
    >)
        ensures
            devices matches Ok(devices) && devices@.len() == surfaced_metal(adapters@).len()
                && forall|k: int|
                0 <= k < devices@.len() ==> describes_metal(
                    #[trigger] devices@[k],
                    surfaced_metal(adapters@)[k],
                ),
    {
        let ghost all = adapters@;
        let mut devices: Vec<PhysicalDevice> = Vec::new();
        for adapter in iter: adapters
            invariant
                iter.seq() == all,
                devices@.len() == surfaced_metal(all.take(iter.index() as int)).len(),
                forall|k: int|
                    0 <= k < devices@.len() ==> describes_metal(
                        #[trigger] devices@[k],
                        surfaced_metal(all.take(iter.index() as int))[k],
                    ),
        {
            let ghost done = iter.index() as int;
            proof {
                reveal(Seq::filter);
                assert(all.take(done + 1).drop_last() =~= all.take(done));
            }
            if adapter.supports_mesh_shading {
                match MetalPhysicalDevice::new(adapter) {
                    Ok(device) => devices.push(PhysicalDevice::Metal(Arc::new(device))),
                    Err(error) => {
                        return Err(error);
                    },
                }
            }
        }
        proof {
            assert(all.take(all.len() as int) =~= all);
        }
        Ok(devices)
    }

    /// A logical device on an adapter of this backend. To hand in an adapter
    /// of another backend is an error of the caller.
    pub fn create_device(&self, desc: &DeviceDesc) -> (device: Result<Device, Error>)
        requires
            desc.physical_device is Metal,
        ensures
            device matches Ok(Device::Metal(device)) && PhysicalDevice::Metal(
                device.physical_device,
            ) == *desc.physical_device && *device.queue == (MetalQueue {
                registry_id: device.physical_device.registry_id,
            }),
    {
        let metal_physical_device = desc.physical_device.as_metal_physical_device().clone();
        match MetalDevice::new(metal_physical_device) {
            Ok(device) => Ok(Device::Metal(Arc::new(device))),
            Err(error) => Err(error),
        }
    }
}

} // verus!
