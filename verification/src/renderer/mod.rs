//! The renderer's plain-data parts: the null renderer, pipeline
//! configuration, and the decisions that the Vulkan renderer takes from
//! what the device reports.

pub mod device;
pub mod images;
pub mod null;
pub mod passes;
pub mod pipeline_config;
pub mod resources;
pub mod swapchain;
