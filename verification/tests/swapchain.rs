//! Choosing the swapchain properties and reading the outcome of its requests.

use ash::vk;
use gensokyo_vulkan::consts::{ SHARING_MODE_CONCURRENT, SHARING_MODE_EXCLUSIVE, IMAGE_USAGE_COLOR_ATTACHMENT, COMPOSITE_ALPHA_OPAQUE, VK_TRUE, FORMAT_UNDEFINED, RESULT_TIMEOUT, RESULT_ERROR_OUT_OF_DATE };
use gensokyo_vulkan::types::Dim2D;
use gensokyo_vulkan::error::VkErrorKind;
use gensokyo_vulkan::swapchain::builder::{ SwapchainBuilder, sharing_mode };
use gensokyo_vulkan::swapchain::chain::{ SwapchainConfig, GsSwapchain, SwapchainSyncError };
use gensokyo_vulkan::swapchain::error::SwapchainInitError;
use gensokyo_vulkan::swapchain::support::{ SwapchainSupport, SurfaceCapabilities, SurfaceFormat, SPECIAL_EXTENT };

fn config() -> SwapchainConfig {
    SwapchainConfig {
        image_count: 3,
        framebuffer_layers: 1,
        prefer_surface_format: vk::Format::B8G8R8A8_UNORM.as_raw(),
        prefer_surface_color_space: vk::ColorSpaceKHR::SRGB_NONLINEAR.as_raw(),
        prefer_primary_present_mode: vk::PresentModeKHR::MAILBOX.as_raw(),
        prefer_secondary_present_mode: vk::PresentModeKHR::FIFO.as_raw(),
        acquire_image_time_out: 1_000_000,
    }
}

fn capabilities(current: Dim2D) -> SurfaceCapabilities {
    SurfaceCapabilities {
        min_image_count: 2,
        max_image_count: 8,
        current_extent: current,
        min_image_extent: Dim2D { width: 100, height: 100 },
        max_image_extent: Dim2D { width: 1920, height: 1080 },
        max_image_array_layers: 1,
        supported_transforms: 1,
        current_transform: 1,
        supported_composite_alpha: 1,
        supported_usage_flags: IMAGE_USAGE_COLOR_ATTACHMENT,
    }
}

fn srgb(format: vk::Format) -> SurfaceFormat {
    SurfaceFormat { format: format.as_raw(), color_space: vk::ColorSpaceKHR::SRGB_NONLINEAR.as_raw() }
}

#[test]
fn extent_follows_the_surface_or_the_clamped_window() {
    let fixed = SwapchainSupport::query_support(capabilities(Dim2D { width: 640, height: 480 }), vec![srgb(vk::Format::R8G8B8A8_UNORM)], vec![0], &config());
    assert_eq!(fixed.optimal_extent(&Dim2D { width: 5000, height: 5000 }).unwrap(), Dim2D { width: 640, height: 480 });
    let free = SwapchainSupport::query_support(capabilities(Dim2D { width: SPECIAL_EXTENT, height: SPECIAL_EXTENT }), vec![srgb(vk::Format::R8G8B8A8_UNORM)], vec![0], &config());
    assert_eq!(free.optimal_extent(&Dim2D { width: 5000, height: 50 }).unwrap(), Dim2D { width: 1920, height: 100 });
    assert_eq!(free.optimal_extent(&Dim2D { width: 800, height: 600 }).unwrap(), Dim2D { width: 800, height: 600 });
}

#[test]
fn format_prefers_the_configured_one() {
    let preferred = srgb(vk::Format::B8G8R8A8_UNORM);
    let any = SwapchainSupport::query_support(capabilities(Dim2D { width: 1, height: 1 }), vec![SurfaceFormat { format: FORMAT_UNDEFINED, color_space: 0 }], vec![0], &config());
    assert_eq!(any.optimal_format(), preferred);
    let listed = SwapchainSupport::query_support(capabilities(Dim2D { width: 1, height: 1 }), vec![srgb(vk::Format::R8G8B8A8_UNORM), preferred], vec![0], &config());
    assert_eq!(listed.optimal_format(), preferred);
    let absent = SwapchainSupport::query_support(capabilities(Dim2D { width: 1, height: 1 }), vec![srgb(vk::Format::R8G8B8A8_UNORM), srgb(vk::Format::R8G8B8A8_SRGB)], vec![0], &config());
    assert_eq!(absent.optimal_format(), srgb(vk::Format::R8G8B8A8_UNORM));
}

#[test]
fn present_mode_falls_back_in_order() {
    let mailbox = vk::PresentModeKHR::MAILBOX.as_raw();
    let fifo = vk::PresentModeKHR::FIFO.as_raw();
    let immediate = vk::PresentModeKHR::IMMEDIATE.as_raw();
    let both = SwapchainSupport::query_support(capabilities(Dim2D { width: 1, height: 1 }), vec![srgb(vk::Format::R8G8B8A8_UNORM)], vec![fifo, mailbox], &config());
    assert_eq!(both.optimal_present_mode(), mailbox);
    let second = SwapchainSupport::query_support(capabilities(Dim2D { width: 1, height: 1 }), vec![srgb(vk::Format::R8G8B8A8_UNORM)], vec![immediate, fifo], &config());
    assert_eq!(second.optimal_present_mode(), fifo);
    let neither = SwapchainSupport::query_support(capabilities(Dim2D { width: 1, height: 1 }), vec![srgb(vk::Format::R8G8B8A8_UNORM)], vec![immediate], &config());
    assert_eq!(neither.optimal_present_mode(), immediate);
}

#[test]
fn sharing_depends_on_the_queue_families() {
    let same = sharing_mode(2, 2);
    assert_eq!(same.mode, SHARING_MODE_EXCLUSIVE);
    assert!(same.queue_family_indices.is_empty());
    let apart = sharing_mode(0, 1);
    assert_eq!(apart.mode, SHARING_MODE_CONCURRENT);
    assert_eq!(apart.queue_family_indices, vec![0, 1]);
}

#[test]
fn builder_fills_the_create_values() {
    let support = SwapchainSupport::query_support(
        capabilities(Dim2D { width: SPECIAL_EXTENT, height: SPECIAL_EXTENT }),
        vec![srgb(vk::Format::B8G8R8A8_UNORM)],
        vec![vk::PresentModeKHR::FIFO.as_raw()],
        &config(),
    );
    let builder = SwapchainBuilder::init(&config(), 42, support, 0, 1);
    let ci = builder.build(&Dim2D { width: 1280, height: 720 }, 7).unwrap();
    assert_eq!(ci.surface, 42);
    assert_eq!(ci.min_image_count, 3);
    assert_eq!(ci.image_format, vk::Format::B8G8R8A8_UNORM.as_raw());
    assert_eq!(ci.image_extent, Dim2D { width: 1280, height: 720 });
    assert_eq!(ci.image_array_layers, 1);
    assert_eq!(ci.image_usage, IMAGE_USAGE_COLOR_ATTACHMENT);
    assert_eq!(ci.image_sharing_mode, SHARING_MODE_CONCURRENT);
    assert_eq!(ci.queue_family_indices, vec![0, 1]);
    assert_eq!(ci.pre_transform, 1);
    assert_eq!(ci.composite_alpha, COMPOSITE_ALPHA_OPAQUE);
    assert_eq!(ci.present_mode, vk::PresentModeKHR::FIFO.as_raw());
    assert_eq!(ci.clipped, VK_TRUE);
    assert_eq!(ci.old_swapchain, 7);
}

#[test]
fn acquisition_outcomes() {
    let chain = GsSwapchain::construct(1, vec![10, 11], vec![20, 21], 44, Dim2D { width: 2, height: 2 }, 5);
    assert_eq!(chain.image_count(), 2);
    assert_eq!(chain.view_at(1), 21);
    assert_eq!(chain.format(), 44);
    assert_eq!(chain.dimension(), Dim2D { width: 2, height: 2 });
    assert_eq!(chain.next_image(Ok((1, false))).unwrap(), 1);
    let expect = |r: Result<u32, gensokyo_vulkan::error::VkError>, e: SwapchainSyncError| match r {
        Err(err) => assert_eq!(*err.kind(), VkErrorKind::SwapchainSync(e)),
        Ok(_) => panic!("expected an error"),
    };
    expect(chain.next_image(Ok((0, true))), SwapchainSyncError::SubOptimal);
    expect(chain.next_image(Err(RESULT_TIMEOUT)), SwapchainSyncError::TimeOut);
    expect(chain.next_image(Err(RESULT_ERROR_OUT_OF_DATE)), SwapchainSyncError::SurfaceOutDate);
    expect(chain.next_image(Err(vk::Result::ERROR_DEVICE_LOST.as_raw())), SwapchainSyncError::Unknown);
    assert!(chain.present(Ok(false)).is_ok());
    match chain.present(Ok(true)) {
        Err(err) => assert_eq!(*err.kind(), VkErrorKind::SwapchainSync(SwapchainSyncError::SubOptimal)),
        Ok(_) => panic!("a suboptimal swapchain is reported"),
    }
    match chain.present(Err(vk::Result::ERROR_OUT_OF_DATE_KHR.as_raw())) {
        Err(err) => assert_eq!(*err.kind(), VkErrorKind::SwapchainSync(SwapchainSyncError::Unknown)),
        Ok(_) => panic!("a failed present is reported"),
    }
}

#[test]
fn assembly_reports_each_failed_step() {
    let support = SwapchainSupport::query_support(
        capabilities(Dim2D { width: 640, height: 480 }),
        vec![srgb(vk::Format::B8G8R8A8_UNORM)],
        vec![vk::PresentModeKHR::FIFO.as_raw()],
        &config(),
    );
    let ci = SwapchainBuilder::init(&config(), 42, support, 0, 0).build(&Dim2D { width: 800, height: 600 }, 0).unwrap();
    let failed = vk::Result::ERROR_OUT_OF_HOST_MEMORY.as_raw();
    let err = |r: Result<GsSwapchain, SwapchainInitError>| match r {
        Err(e) => e,
        Ok(_) => panic!("expected a failure"),
    };
    assert_eq!(err(GsSwapchain::assemble(&ci, 9, Err(failed), Ok(vec![1]), vec![Ok(2)])), SwapchainInitError::SwapchianCreationError);
    assert_eq!(err(GsSwapchain::assemble(&ci, 9, Ok(5), Err(failed), vec![])), SwapchainInitError::SwapchainImageGetError);
    assert_eq!(err(GsSwapchain::assemble(&ci, 9, Ok(5), Ok(vec![1, 2, 3]), vec![Ok(11), Err(failed)])), SwapchainInitError::ImageViewCreationError);
    let chain = match GsSwapchain::assemble(&ci, 9, Ok(5), Ok(vec![1, 2, 3]), vec![Ok(11), Ok(12), Ok(13)]) {
        Ok(chain) => chain,
        Err(e) => panic!("assembly failed: {:?}", e),
    };
    assert_eq!(chain.image_count(), 3);
    assert_eq!(chain.view_at(0), 11);
    assert_eq!(chain.view_at(2), 13);
    assert_eq!(chain.format(), vk::Format::B8G8R8A8_UNORM.as_raw());
    assert_eq!(chain.dimension(), Dim2D { width: 640, height: 480 });
}
