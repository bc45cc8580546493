//! Shader modules of a Vulkan device: SPIR-V as the words that the driver
//! takes.

use crate::backend::vulkan::device::VulkanDevice;
use crate::Error;
use std::sync::Arc;
use vstd::prelude::*;

verus! {

/// A compiled shader, with the device it was made on. The module keeps its
/// device alive for as long as it lives itself.
pub struct VulkanShaderModule {
    pub device: Arc<VulkanDevice>,
    pub code: Vec<u32>,
}

/// The byte at an index, and zero past the end.
pub open spec fn byte_at(bytes: Seq<u8>, index: int) -> int {
    if 0 <= index < bytes.len() {
        bytes[index] as int
    } else {
        0
    }
}

/// The word that four bytes make with the lowest byte first.
pub open spec fn word_low_first(bytes: Seq<u8>, word: int) -> int {
    byte_at(bytes, 4 * word) + 0x100 * byte_at(bytes, 4 * word + 1) + 0x1_0000 * byte_at(
        bytes,
        4 * word + 2,
    ) + 0x100_0000 * byte_at(bytes, 4 * word + 3)
}

/// The word that four bytes make with the highest byte first.
pub open spec fn word_high_first(bytes: Seq<u8>, word: int) -> int {
    0x100_0000 * byte_at(bytes, 4 * word) + 0x1_0000 * byte_at(bytes, 4 * word + 1) + 0x100
        * byte_at(bytes, 4 * word + 2) + byte_at(bytes, 4 * word + 3)
}

/// The words hold the bytes in the machine's byte order, four to a word,
/// the last word filled up with zero bytes.
pub open spec fn holds_bytes(words: Seq<u32>, bytes: Seq<u8>) -> bool {
    &&& words.len() == (bytes.len() + 3) / 4
    &&& {
        ||| forall|word: int|
            0 <= word < words.len() ==> (#[trigger] words[word]) as int == word_low_first(
                bytes,
                word,
            )
        ||| forall|word: int|
            0 <= word < words.len() ==> (#[trigger] words[word]) as int == word_high_first(
                bytes,
                word,
            )
    }
}

/// `bytemuck::pod_collect_to_vec` from bytes to 32-bit words: a new vector of
/// as many words as hold the bytes, zeroed, with the bytes copied over its
/// memory. Which byte of a word comes first is the machine's choice, so the
/// contract allows both orders.
#[verifier::external_body]
fn collect_words(bytes: &Vec<u8>) -> (words: Vec<u32>)
    ensures
        holds_bytes(words@, bytes@),
{
    bytemuck::pod_collect_to_vec::<u8, u32>(bytes)
}

impl VulkanShaderModule {
    /// The module of the device whose code is the given SPIR-V bytecode.
    pub fn new(device: Arc<VulkanDevice>, bytecode: &Vec<u8>) -> (module: Result<Self, Error>)
        ensures
            module matches Ok(module) && module.device == device && holds_bytes(
                module.code@,
                bytecode@,
            ),
    {
        Ok(VulkanShaderModule { device, code: collect_words(bytecode) })
    }
}

} // verus!
