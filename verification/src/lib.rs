//! Verified resource-planning core of a Vulkan wrapper: descriptor set
//! bookkeeping, image creation settings, image layout transitions and
//! mip-chain generation plans, and swapchain property selection.
//!
//! The library decides *what* is to be created and recorded; the actual
//! Vulkan calls are made by the application around it.

pub mod consts;
pub mod types;
pub mod error;
pub mod swapchain;
pub mod image;
pub mod descriptor;
