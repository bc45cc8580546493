//! The Metal logical device.

use crate::backend::metal::physical_device::MetalPhysicalDevice;
use crate::backend::metal::queue::MetalQueue;
use crate::backend::metal::translation::{ShaderTranslation, TranslationState};
use crate::queue::Queue;
use crate::shader_module::{ShaderDesc, ShaderKind};
use crate::util::{compile_hlsl, description_nul};
use crate::Error;
use std::sync::Arc;
use vstd::prelude::*;

verus! {

/// The record of a logical device on one adapter. Metal has no queue
/// families: the one command queue of the device serves every role.
pub struct MetalDevice {
    pub physical_device: Arc<MetalPhysicalDevice>,
    pub queue: Arc<MetalQueue>,
}

impl MetalDevice {
    /// The record of a logical device on the adapter.
    pub fn new(physical_device: Arc<MetalPhysicalDevice>) -> (device: Result<Self, Error>)
        ensures
            device matches Ok(device) && device.physical_device == physical_device
                && *device.queue == (MetalQueue { registry_id: physical_device.registry_id }),
    {
        let queue = match MetalQueue::new(physical_device.registry_id) {
            Ok(queue) => queue,
            Err(error) => {
                return Err(error);
            },
        };
        Ok(Self { physical_device, queue: Arc::new(queue) })
    }

    /// Compiles the description to DXIL and sets up the translation of the
    /// bytecode into a shader module of this device.
    ///
    /// A description with a NUL character in its name, its entry point or a
    /// define is refused. Otherwise the compiler decides between its bytecode,
    /// with which the translation starts, and its own error.
    pub fn create_shader_module(self: &Arc<Self>, desc: &ShaderDesc) -> (translation: Result<
        ShaderTranslation,
        Error,
    >)
        ensures
            description_nul(desc) matches Some(position) ==> exists|at: usize|
                translation == Err::<ShaderTranslation, Error>(Error::NulError(at)) && at
                    == position,
            description_nul(desc) is None ==> {
                ||| {
                    &&& translation matches Ok(translation)
                    &&& translation@ == TranslationState::initial()
                    &&& *translation.device == **self
                    &&& translation.kind == desc.kind
                    &&& translation.entry_point == desc.entry_point
                }
                ||| translation matches Err(Error::HassleRs(_))
            },
    {
        let dxil_code = match compile_hlsl(desc, false) {
            Ok(bytecode) => bytecode,
            Err(error) => {
                return Err(error);
            },
        };
        ShaderTranslation::new(self.clone(), desc, dxil_code)
    }

    /// The queue for graphics, compute and transfer work.
    pub fn get_direct_queue(&self) -> (queue: Queue)
        ensures
            queue == Queue::Metal(self.queue),
    {
        Queue::Metal(self.queue.clone())
    }

    /// The queue for compute work: the one queue of the device.
    pub fn get_compute_queue(&self) -> (queue: Queue)
        ensures
            queue == Queue::Metal(self.queue),
    {
        Queue::Metal(self.queue.clone())
    }

    /// The queue for transfer work: the one queue of the device.
    pub fn get_transfer_queue(&self) -> (queue: Queue)
        ensures
            queue == Queue::Metal(self.queue),
    {
        Queue::Metal(self.queue.clone())
    }
}

/// The stage of a shader, as the translator names stages.
#[derive(Copy, Clone, Debug, PartialEq, Eq, Hash, Structural)]
pub enum IrShaderStage {
    Vertex,
    Fragment,
    Amplification,
    Mesh,
    Compute,
}

/// The translator's stage for each kind of shader: a task shader is an
/// amplification shader there, the others keep their names.
pub open spec fn translator_stage(kind: ShaderKind) -> IrShaderStage {
    match kind {
        ShaderKind::Vertex => IrShaderStage::Vertex,
        ShaderKind::Fragment => IrShaderStage::Fragment,
        ShaderKind::Task => IrShaderStage::Amplification,
        ShaderKind::Mesh => IrShaderStage::Mesh,
        ShaderKind::Compute => IrShaderStage::Compute,
    }
}

/// The translator's stage for a kind of shader.
pub fn ir_shader_stage(kind: ShaderKind) -> (stage: IrShaderStage)
    ensures
        stage == translator_stage(kind),
{
    match kind {
        ShaderKind::Vertex => IrShaderStage::Vertex,
        ShaderKind::Fragment => IrShaderStage::Fragment,
        ShaderKind::Task => IrShaderStage::Amplification,
        ShaderKind::Mesh => IrShaderStage::Mesh,
        ShaderKind::Compute => IrShaderStage::Compute,
    }
}

} // verus!
