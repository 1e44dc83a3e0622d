//! The settings a swapchain is created with.

use vstd::prelude::*;

use crate::consts::{ IMAGE_USAGE_COLOR_ATTACHMENT, VK_TRUE, SHARING_MODE_EXCLUSIVE, SHARING_MODE_CONCURRENT, COMPOSITE_ALPHA_OPAQUE };
use crate::types::Dim2D;
use crate::error::VkError;
use crate::swapchain::chain::{ SwapchainConfig, GsSwapchain };
use crate::swapchain::error::SwapchainInitError;
use crate::swapchain::support::{ SwapchainSupport, SurfaceFormat };

verus! {

/// How the swapchain images are shared between the graphics and present queues.
pub struct SwapchainImageSharingInfo {
    pub mode: i32,
    /// the queue families sharing the images; only used in concurrent mode.
    pub queue_family_indices: Vec<u32>,
}

/// Images are used by one queue family when graphics and presentation share
/// it, and concurrently by both otherwise.
pub fn sharing_mode(graphics_family: u32, present_family: u32) -> (r: SwapchainImageSharingInfo)
    ensures
        graphics_family == present_family ==> r.mode == SHARING_MODE_EXCLUSIVE && r.queue_family_indices@ == Seq::<u32>::empty(),
        graphics_family != present_family ==> r.mode == SHARING_MODE_CONCURRENT && r.queue_family_indices@ == seq![graphics_family, present_family],
{
    if graphics_family == present_family {
        SwapchainImageSharingInfo { mode: SHARING_MODE_EXCLUSIVE, queue_family_indices: Vec::new() }
    } else {
        let mut v: Vec<u32> = Vec::new();
        v.push(graphics_family);
        v.push(present_family);
        SwapchainImageSharingInfo { mode: SHARING_MODE_CONCURRENT, queue_family_indices: v }
    }
}

/// What a swapchain is to be built from.
pub struct SwapchainBuilder {
    pub surface: u64,
    pub support: SwapchainSupport,
    pub image_share_info: SwapchainImageSharingInfo,
    pub image_count: u32,
    pub acquire_image_time: u64,
}

/// The values a swapchain is created with.
pub struct SwapchainCreateInfo {
    pub surface: u64,
    pub min_image_count: u32,
    pub image_format: i32,
    pub image_color_space: i32,
    pub image_extent: Dim2D,
    pub image_array_layers: u32,
    pub image_usage: u32,
    pub image_sharing_mode: i32,
    pub queue_family_indices: Vec<u32>,
    pub pre_transform: u32,
    pub composite_alpha: u32,
    pub present_mode: i32,
    pub clipped: u32,
    pub old_swapchain: u64,
}

impl SwapchainBuilder {
    /// A builder for the surface, from what it supports and the queue families
    /// of graphics and presentation.
    pub fn init(config: &SwapchainConfig, surface: u64, support: SwapchainSupport, graphics_family: u32, present_family: u32) -> (r: SwapchainBuilder)
        ensures
            r.surface == surface,
            r.support == support,
            r.image_count == config.image_count,
            r.acquire_image_time == config.acquire_image_time_out,
            graphics_family == present_family ==> r.image_share_info.mode == SHARING_MODE_EXCLUSIVE
                && r.image_share_info.queue_family_indices@ == Seq::<u32>::empty(),
            graphics_family != present_family ==> r.image_share_info.mode == SHARING_MODE_CONCURRENT
                && r.image_share_info.queue_family_indices@ == seq![graphics_family, present_family],
    {
        let image_share_info = sharing_mode(graphics_family, present_family);
        SwapchainBuilder {
            surface,
            support,
            image_share_info,
            image_count: config.image_count,
            acquire_image_time: config.acquire_image_time_out,
        }
    }

    /// The create values of the swapchain for a window of `window_size`,
    /// replacing `old_swapchain` (0 for none): the chosen format, extent and
    /// present mode, one layer of colour attachments, opaque, clipped.
    pub fn build(self, window_size: &Dim2D, old_swapchain: u64) -> (r: Result<SwapchainCreateInfo, VkError>)
        requires
            self.support.formats@.len() > 0,
            self.support.present_modes@.len() > 0,
            self.support.spec_extent_choosable(),
        ensures
            r matches Ok(ci) && {
                let format: SurfaceFormat = self.support.spec_optimal_format();
                &&& ci.surface == self.surface
                &&& ci.min_image_count == self.image_count
                &&& ci.image_format == format.format
                &&& ci.image_color_space == format.color_space
                &&& ci.image_extent == self.support.spec_optimal_extent(*window_size)
                &&& ci.image_array_layers == 1
                &&& ci.image_usage == IMAGE_USAGE_COLOR_ATTACHMENT
                &&& ci.image_sharing_mode == self.image_share_info.mode
                &&& ci.queue_family_indices@ == self.image_share_info.queue_family_indices@
                &&& ci.pre_transform == self.support.capabilities.current_transform
                &&& ci.composite_alpha == COMPOSITE_ALPHA_OPAQUE
                &&& ci.present_mode == self.support.spec_optimal_present_mode()
                &&& ci.clipped == VK_TRUE
                &&& ci.old_swapchain == old_swapchain
            },
    {
        let prefer_format = self.support.optimal_format();
        let prefer_extent = self.support.optimal_extent(window_size)?;
        let pre_transform = self.support.current_transform();
        let present_mode = self.support.optimal_present_mode();
        Ok(SwapchainCreateInfo {
            surface: self.surface,
            min_image_count: self.image_count,
            image_format: prefer_format.format,
            image_color_space: prefer_format.color_space,
            image_extent: prefer_extent,
            image_array_layers: 1,
            image_usage: IMAGE_USAGE_COLOR_ATTACHMENT,
            image_sharing_mode: self.image_share_info.mode,
            queue_family_indices: self.image_share_info.queue_family_indices,
            pre_transform,
            composite_alpha: COMPOSITE_ALPHA_OPAQUE,
            present_mode,
            clipped: VK_TRUE,
            old_swapchain,
        })
    }
}

/// Whether every view of the swapchain images was created.
pub open spec fn spec_views_created(views: Seq<Result<u64, i32>>) -> bool {
    forall|k: int| 0 <= k < views.len() ==> #[trigger] views[k] is Ok
}

impl GsSwapchain {
    /// The swapchain made from the create values `ci`, from what creating it
    /// gave (`created`), then what asking for its images gave (`images`), then
    /// what creating a view of each image gave (`views`, in image order, up to
    /// the first failure). Each failed step is reported as its own error, in
    /// that order; otherwise the swapchain has the images, one view per image,
    /// and the format and extent of `ci`.
    pub fn assemble(
        ci: &SwapchainCreateInfo,
        image_acquire_time: u64,
        created: Result<u64, i32>,
        images: Result<Vec<u64>, i32>,
        views: Vec<Result<u64, i32>>,
    ) -> (r: Result<GsSwapchain, SwapchainInitError>)
        requires
            created is Ok ==> (images matches Ok(is) ==> (views@.len() == is@.len() || !spec_views_created(views@))),
        ensures
            created is Err ==> r matches Err(SwapchainInitError::SwapchianCreationError),
            created is Ok && images is Err ==> r matches Err(SwapchainInitError::SwapchainImageGetError),
            created is Ok && images is Ok && !spec_views_created(views@) ==> r matches Err(
                SwapchainInitError::ImageViewCreationError,
            ),
            spec_views_created(views@) ==> (created matches Ok(h) ==> (images matches Ok(is) ==> (r matches Ok(s) && {
                &&& s.wf()
                &&& s.handle == h
                &&& s.images@ == is@
                &&& forall|k: int| 0 <= k < s.views@.len() ==> views@[k] == Ok::<u64, i32>(#[trigger] s.views@[k])
                &&& s.format == ci.image_format
                &&& s.extent == ci.image_extent
                &&& s.image_acquire_time == image_acquire_time
            }))),
    {
        let handle = match created {
            Ok(h) => h,
            Err(_) => return Err(SwapchainInitError::SwapchianCreationError),
        };
        let image_handles = match images {
            Ok(is) => is,
            Err(_) => return Err(SwapchainInitError::SwapchainImageGetError),
        };
        let mut view_handles: Vec<u64> = Vec::new();
        let mut k: usize = 0;
        while k < views.len()
            invariant
                k <= views@.len(),
                created == Ok::<u64, i32>(handle),
                images == Ok::<Vec<u64>, i32>(image_handles),
                views@.len() == image_handles@.len() || !spec_views_created(views@),
                view_handles@.len() == k,
                forall|q: int| 0 <= q < k ==> views@[q] == Ok::<u64, i32>(#[trigger] view_handles@[q]),
            decreases views.len() - k,
        {
            match views[k] {
                Ok(v) => view_handles.push(v),
                Err(_) => {
                    assert(!(views@[k as int] is Ok));
                    return Err(SwapchainInitError::ImageViewCreationError);
                },
            }
            k = k + 1;
        }
        assert(spec_views_created(views@)) by {
            assert forall|q: int| 0 <= q < views@.len() implies #[trigger] views@[q] is Ok by {
                assert(views@[q] == Ok::<u64, i32>(view_handles@[q]));
            }
        }
        Ok(GsSwapchain::construct(handle, image_handles, view_handles, ci.image_format, ci.image_extent, image_acquire_time))
    }
}

} // verus!
