pub mod buffer;
pub mod device;
pub mod pipeline;
pub mod swapchain;
pub mod vertex;
