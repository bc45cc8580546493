//! The two backends.

pub mod metal;
pub mod vulkan;
