//! A verified core for a GPU hardware-abstraction layer.
//!
//! The crate holds the decisions of the layer: which adapters are surfaced,
//! which queue families serve which role, what is handed to the shader
//! compiler, and in which order the native objects of a shader translation are
//! acquired and released. The native calls themselves are made by the caller,
//! who hands their results to the functions here as plain values.

use hassle_rs::HassleError;
use vstd::prelude::*;

pub mod backend;
pub mod device;
pub mod filtered;
pub mod instance;
pub mod physical_device;
pub mod queue;
pub mod shader_module;
pub mod text;
pub mod util;

pub use crate::device::{Device, ShaderCreation};
pub use crate::instance::{DeviceDesc, Enumeration, Instance, InstanceDesc, WindowHandle};
pub use crate::physical_device::PhysicalDevice;
pub use crate::queue::{Queue, QueueType};
pub use crate::shader_module::{ShaderDesc, ShaderKind, ShaderModule, ShaderSource};

verus! {

/// The native API a resource belongs to.
#[derive(Copy, Clone, Debug, PartialEq, Eq, Hash, Structural)]
pub enum BackendType {
    Vulkan,
    Metal,
}

/// `hassle_rs::HassleError`, the error of the shader compiler's wrapper. The
/// library carries it through and never looks inside.
#[verifier::external_type_specification]
#[verifier::external_body]
pub struct ExHassleError(HassleError);

/// What can go wrong in the layer.
#[derive(Debug)]
pub enum Error {
    /// No backend is available.
    NoBackendFound,
    /// A string that has to end at a terminator holds a NUL character, at
    /// this position.
    NulError(usize),
    /// Something that has no error of its own.
    Unknown,
    /// The windowing library failed; its message.
    SdlError(String),
    /// The Vulkan loader could not be loaded; its message.
    VulkanLoadingError(String),
    /// No queue family takes graphics, compute and transfer work at once.
    VulkanQueueFamilyNotFound,
    /// A Vulkan call failed with this result code.
    VulkanError(i32),
    /// The shader source is of a kind that the compiler at hand does not take.
    InvalidShaderSource,
    /// The shader compiler failed; its diagnostic is inside.
    HassleRs(HassleError),
    /// The translation of the intermediate bytecode to the Metal format failed.
    MetalShaderConverter(String),
    /// A Metal call reported an error object; its description.
    NSError(String),
    /// A Metal call failed without an error object.
    MetalError(String),
}

} // verus!
