//! Shader modules of a Metal device: the native library and function, and
//! where each resource of the shader is found.

use crate::backend::metal::device::MetalDevice;
use crate::Error;
use std::sync::Arc;
use vstd::prelude::*;

verus! {

/// Where one resource of a shader is found: the resource as the source
/// declares it (its kind, register space and slot), and its place in the
/// top-level argument buffer.
#[derive(Copy, Clone, Debug, PartialEq, Eq, Hash, Structural)]
pub struct ResourceLocation {
    pub resource_type: u32,
    pub space: u32,
    pub slot: u32,
    pub top_level_offset: u32,
    pub size_bytes: u64,
}

impl ResourceLocation {
    /// The resource as the source declares it.
    pub open spec fn binding(&self) -> (u32, u32, u32) {
        (self.resource_type, self.space, self.slot)
    }
}

/// No two locations are of the same declared resource.
pub open spec fn distinct_bindings(locations: Seq<ResourceLocation>) -> bool {
    forall|i: int, j: int|
        0 <= i < j < locations.len() ==> (#[trigger] locations[i]).binding() != (
        #[trigger] locations[j]).binding()
}

/// Whether no two locations are of the same declared resource.
pub fn has_distinct_bindings(locations: &Vec<ResourceLocation>) -> (distinct: bool)
    ensures
        distinct == distinct_bindings(locations@),
{
    let mut j: usize = 0;
    while j < locations.len()
        invariant
            j <= locations.len(),
            distinct_bindings(locations@.take(j as int)),
        decreases locations.len() - j,
    {
        let mut i: usize = 0;
        while i < j
            invariant
                i <= j < locations.len(),
                forall|k: int|
                    0 <= k < i ==> (#[trigger] locations@[k]).binding()
                        != locations@[j as int].binding(),
            decreases j - i,
        {
            if locations[i].resource_type == locations[j].resource_type && locations[i].space
                == locations[j].space && locations[i].slot == locations[j].slot {
                return false;
            }
            i += 1;
        }
        j += 1;
    }
    proof {
        assert(locations@.take(j as int) =~= locations@);
    }
    true
}

/// A translated shader, with the device it was made on: the handles of the
/// native library and of the entry function in it, and the location of each
/// resource that the shader uses.
pub struct MetalShaderModule {
    pub device: Arc<MetalDevice>,
    pub library: u64,
    pub function: u64,
    pub locations: Vec<ResourceLocation>,
}

impl MetalShaderModule {
    /// Both handles are there, and no resource has two locations.
    pub open spec fn well_formed(&self) -> bool {
        &&& self.library != 0
        &&& self.function != 0
        &&& distinct_bindings(self.locations@)
    }

    pub fn new(
        device: Arc<MetalDevice>,
        library: u64,
        function: u64,
        locations: Vec<ResourceLocation>,
    ) -> (module: Result<Self, Error>)
        ensures
            module matches Ok(module) && module.device == device && module.library == library
                && module.function == function && module.locations == locations,
    {
        Ok(Self { device, library, function, locations })
    }
}

} // verus!
