//! The backend that takes shaders in a native format of its own, into which
//! the intermediate bytecode is converted.

pub mod device;
pub mod instance;
pub mod physical_device;
pub mod queue;
pub mod shader_module;
pub mod translation;

pub use crate::backend::metal::device::MetalDevice;
pub use crate::backend::metal::instance::MetalInstance;
pub use crate::backend::metal::physical_device::{MetalAdapter, MetalPhysicalDevice};
pub use crate::backend::metal::queue::MetalQueue;
pub use crate::backend::metal::shader_module::{MetalShaderModule, ResourceLocation};
pub use crate::backend::metal::translation::{
    ShaderTranslation, TranslatorCall, TranslatorReply,
};
