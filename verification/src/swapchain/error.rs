//! The errors of building a swapchain.

use vstd::prelude::*;

use crate::error::VkError;

verus! {

/// What went wrong while building a swapchain.
#[derive(Debug, Clone, PartialEq, Eq)]
pub enum SwapchainInitError {
    /// the properties of the surface could not be queried.
    SurfacePropertiesQuery(VkError),
    /// the swapchain could not be created.
    SwapchianCreationError,
    /// the images of the swapchain could not be obtained.
    SwapchainImageGetError,
    /// a view of a swapchain image could not be created.
    ImageViewCreationError,
}

} // verus!
