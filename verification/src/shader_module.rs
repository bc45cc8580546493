//! Shader descriptions and compiled shader modules.

use crate::backend::metal::shader_module::MetalShaderModule;
use crate::backend::vulkan::shader_module::VulkanShaderModule;
use vstd::prelude::*;

verus! {

/// A compiled shader, whatever the backend.
pub enum ShaderModule {
    Vulkan(VulkanShaderModule),
    Metal(MetalShaderModule),
}

/// The pipeline stage a shader is written for.
#[derive(Copy, Clone, Debug, PartialEq, Eq, Hash, Structural)]
pub enum ShaderKind {
    Vertex,
    Task,
    Mesh,
    Fragment,
    Compute,
}

/// What a shader is compiled from.
#[derive(Clone)]
pub enum ShaderSource {
    /// HLSL text, with the preprocessor defines it is compiled under: each a
    /// name and, optionally, a value.
    Hlsl { source: String, defines: Vec<(String, Option<String>)> },
}

/// What to compile: a label for diagnostics, the source, the stage and the
/// name of the entry function.
pub struct ShaderDesc {
    pub name: String,
    pub source: ShaderSource,
    pub kind: ShaderKind,
    pub entry_point: String,
}

} // verus!
