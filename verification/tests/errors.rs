//! The messages of the library's errors.

use gensokyo_vulkan::error::{ VkError, VkErrorKind };
use gensokyo_vulkan::swapchain::chain::SwapchainSyncError;

#[test]
fn error_messages() {
    assert_eq!(VkError::unlink("Surface").message(), "Failed to bridge connection between Surface and Vulkan.");
    assert_eq!(VkError::query("Memory").message(), "Failed to query Memory property from Vulkan or Device.");
    assert_eq!(VkError::create("Sampler").message(), "Failed to create Sampler.");
    assert_eq!(VkError::unsupported("Geometry Shader").message(), "Feature Geometry Shader is not supported in current Vulkan Device.");
    assert_eq!(VkError::device("Wait idle").message(), "Invalid Operation: Wait idle");
    assert_eq!(VkError::shaderc("bad token").message(), "Error occurred during runtime shader compiling: bad token.");
    assert_eq!(VkError::str_convert("name").message(), "Failed to convert string name between c-style string and Rust string.");
    assert_eq!(VkError::other("anything").message(), "anything");
    assert_eq!(VkError::from_kind(VkErrorKind::path("/tmp/a.spv")).message(), "Failed to locate file at: \"/tmp/a.spv\"");
    assert_eq!(VkError::swapchain_sync(SwapchainSyncError::TimeOut).message(), "No image became available within the time allowed.");
}

#[test]
fn swapchain_sync_messages() {
    assert_eq!(SwapchainSyncError::TimeOut.message(), "No image became available within the time allowed.");
    assert_eq!(SwapchainSyncError::SubOptimal.message(), "Swapchain does not match the surface properties exactly.");
    assert_eq!(SwapchainSyncError::SurfaceOutDate.message(), "Surface has changed and is not compatible with the swapchain.");
    assert_eq!(SwapchainSyncError::Unknown.message(), "Get unknown error when acquiring image.");
}

#[test]
fn error_kind_is_kept() {
    let e = VkError::query("Format");
    assert_eq!(*e.kind(), VkErrorKind::Query { query_target: "Format" });
    assert_eq!(e.kind().message(), e.message());
    match VkErrorKind::path("x") {
        VkErrorKind::Path { path } => assert_eq!(path, "x"),
        _ => panic!("a path error"),
    }
}

#[test]
fn path_messages_escape_the_path_as_debug_does() {
    assert_eq!(VkErrorKind::path("a\"b").message(), "Failed to locate file at: \"a\\\"b\"");
    assert_eq!(VkErrorKind::path("C:\\shaders\\a.spv").message(), "Failed to locate file at: \"C:\\\\shaders\\\\a.spv\"");
    assert_eq!(VkErrorKind::path("line\nbreak").message(), "Failed to locate file at: \"line\\nbreak\"");
    let path = "dir/x\ty.spv";
    assert_eq!(VkErrorKind::path(path).message(), format!("Failed to locate file at: {:?}", std::path::Path::new(path)));
}

#[test]
fn path_message_prefixes_the_debug_text() {
    assert_eq!(gensokyo_vulkan::error::path_message("\"a\\\"b\""), "Failed to locate file at: \"a\\\"b\"");
    assert_eq!(gensokyo_vulkan::error::path_message(""), "Failed to locate file at: ");
}
