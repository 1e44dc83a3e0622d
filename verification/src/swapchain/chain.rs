//! Outcomes of the swapchain's acquire and present operations.

use vstd::prelude::*;
use vstd::string::*;

use crate::consts::{ RESULT_TIMEOUT, RESULT_ERROR_OUT_OF_DATE };
use crate::types::Dim2D;
use crate::error::{ VkError, VkErrorKind };

verus! {

/// An error about swapchain synchronous operations.
#[derive(Debug, Clone, Copy, PartialEq, Eq)]
pub enum SwapchainSyncError {
    TimeOut,
    SubOptimal,
    SurfaceOutDate,
    Unknown,
}

impl SwapchainSyncError {
    /// The text that describes this error.
    pub open spec fn spec_message(self) -> Seq<char> {
        match self {
            SwapchainSyncError::TimeOut => "No image became available within the time allowed."@,
            SwapchainSyncError::SubOptimal => "Swapchain does not match the surface properties exactly."@,
            SwapchainSyncError::SurfaceOutDate => "Surface has changed and is not compatible with the swapchain."@,
            SwapchainSyncError::Unknown => "Get unknown error when acquiring image."@,
        }
    }

    /// The text that describes this error.
    pub fn message(&self) -> (r: String)
        ensures
            r@ == self.spec_message(),
    {
        match self {
            SwapchainSyncError::TimeOut => String::from_str("No image became available within the time allowed."),
            SwapchainSyncError::SubOptimal => String::from_str("Swapchain does not match the surface properties exactly."),
            SwapchainSyncError::SurfaceOutDate => String::from_str("Surface has changed and is not compatible with the swapchain."),
            SwapchainSyncError::Unknown => String::from_str("Get unknown error when acquiring image."),
        }
    }
}


/// The application's preferences for its swapchain.
#[derive(Debug, Clone, Copy, PartialEq, Eq)]
pub struct SwapchainConfig {
    pub image_count: u32,
    /// the value of layers property in the framebuffers.
    pub framebuffer_layers: u32,
    pub prefer_surface_format: i32,
    pub prefer_surface_color_space: i32,
    pub prefer_primary_present_mode: i32,
    pub prefer_secondary_present_mode: i32,
    /// the maximum duration to wait for an image, in nanoseconds.
    pub acquire_image_time_out: u64,
}

/// A created swapchain: its presentable images and their views, their format
/// and extent, and how long to wait for an image.
pub struct GsSwapchain {
    pub handle: u64,
    pub images: Vec<u64>,
    pub views: Vec<u64>,
    pub format: i32,
    pub extent: Dim2D,
    pub image_count: usize,
    pub image_acquire_time: u64,
}

/// The error an acquisition that failed with the Vulkan result `code` is reported as.
pub open spec fn spec_acquire_error(code: i32) -> SwapchainSyncError {
    if code == RESULT_TIMEOUT {
        SwapchainSyncError::TimeOut
    } else if code == RESULT_ERROR_OUT_OF_DATE {
        SwapchainSyncError::SurfaceOutDate
    } else {
        SwapchainSyncError::Unknown
    }
}

impl GsSwapchain {
    /// Every presentable image has its view, and the image count is their number.
    pub open spec fn wf(&self) -> bool {
        &&& self.image_count == self.images@.len()
        &&& self.views@.len() == self.images@.len()
    }

    /// The swapchain with the given presentable images and their views, one view per image.
    pub fn construct(handle: u64, images: Vec<u64>, views: Vec<u64>, format: i32, extent: Dim2D, image_acquire_time: u64) -> (r: GsSwapchain)
        requires
            views@.len() == images@.len(),
        ensures
            r.wf(),
            r.handle == handle,
            r.images@ == images@,
            r.views@ == views@,
            r.format == format,
            r.extent == extent,
            r.image_count == images@.len(),
            r.image_acquire_time == image_acquire_time,
    {
        let image_count = images.len();
        GsSwapchain { handle, images, views, format, extent, image_count, image_acquire_time }
    }

    /// The index of the image acquired, from the outcome of the acquisition
    /// (the index and whether the swapchain is suboptimal, or the Vulkan error
    /// code): a suboptimal swapchain is an error too.
    pub fn next_image(&self, acquired: Result<(u32, bool), i32>) -> (r: Result<u32, VkError>)
        ensures
            match acquired {
                Ok((index, false)) => r == Ok::<u32, VkError>(index),
                Ok((_, true)) => r matches Err(e) && e.spec_kind() == VkErrorKind::SwapchainSync(SwapchainSyncError::SubOptimal),
                Err(code) => r matches Err(e) && e.spec_kind() == VkErrorKind::SwapchainSync(spec_acquire_error(code)),
            },
    {
        match acquired {
            Ok((image_index, is_sub_optimal)) => {
                if is_sub_optimal {
                    Err(VkError::swapchain_sync(SwapchainSyncError::SubOptimal))
                } else {
                    Ok(image_index)
                }
            },
            Err(code) => {
                let e = if code == RESULT_TIMEOUT {
                    SwapchainSyncError::TimeOut
                } else if code == RESULT_ERROR_OUT_OF_DATE {
                    SwapchainSyncError::SurfaceOutDate
                } else {
                    SwapchainSyncError::Unknown
                };
                Err(VkError::swapchain_sync(e))
            },
        }
    }

    /// The outcome of presenting an image, from the outcome of the present
    /// request (whether the swapchain is suboptimal, or the Vulkan error code).
    pub fn present(&self, presented: Result<bool, i32>) -> (r: Result<(), VkError>)
        ensures
            match presented {
                Ok(false) => r is Ok,
                Ok(true) => r matches Err(e) && e.spec_kind() == VkErrorKind::SwapchainSync(SwapchainSyncError::SubOptimal),
                Err(_) => r matches Err(e) && e.spec_kind() == VkErrorKind::SwapchainSync(SwapchainSyncError::Unknown),
            },
    {
        match presented {
            Ok(is_sub_optimal) => {
                if is_sub_optimal {
                    Err(VkError::swapchain_sync(SwapchainSyncError::SubOptimal))
                } else {
                    Ok(())
                }
            },
            Err(_) => Err(VkError::swapchain_sync(SwapchainSyncError::Unknown)),
        }
    }

    pub fn format(&self) -> (r: i32)
        ensures
            r == self.format,
    {
        self.format
    }

    /// The dimension of the swapchain images.
    pub fn dimension(&self) -> (r: Dim2D)
        ensures
            r == self.extent,
    {
        self.extent
    }

    /// The number of swapchain images.
    pub fn image_count(&self) -> (r: usize)
        ensures
            r == self.image_count,
    {
        self.image_count
    }

    /// The view of the `index`-th swapchain image.
    pub fn view_at(&self, index: usize) -> (r: u64)
        requires
            self.wf(),
            index < self.image_count,
        ensures
            r == self.views@[index as int],
    {
        self.views[index]
    }
}

} // verus!
