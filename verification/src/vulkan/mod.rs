//! The rules of the Vulkan backend: memory type selection, host access to buffers, and
//! the errors of failed Vulkan calls.

pub mod memory;
pub mod errors;
pub mod program;
