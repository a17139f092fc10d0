//! Decision logic of a small Vulkan 2D rendering engine: window
//! configuration, instance and device selection, swapchain settings,
//! memory-type lookup, SPIR-V decoding and the per-frame schedule.

pub mod engine_core;
pub mod renderer;
