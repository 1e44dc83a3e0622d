//! The library's error type.

use vstd::prelude::*;
use vstd::string::*;

use crate::swapchain::SwapchainSyncError;

verus! {

/// The specific kind of error that can occur.
#[derive(Debug, Clone, PartialEq, Eq)]
pub enum VkErrorKind {
    /// An error occurred while building connection between application and Vulkan.
    Unlink { target_name: &'static str },
    /// An error occurred while querying some properties from Vulkan.
    Query { query_target: &'static str },
    /// An error occurred while creating Vulkan Object.
    Create { create_target: &'static str },
    /// An error indicated requiring some unsupported feature.
    UnSupport { feature: &'static str },
    /// An error about Swapchain synchronous operations.
    SwapchainSync(SwapchainSyncError),
    /// An error triggered by Invalid Device operations.
    Device { ops_description: &'static str },
    /// An error that occurred while trying to compile shader code in runtime.
    Shaderc { compile_message: String },
    /// An error happened when trying to convert between CStr and String.
    StrConvert { target: &'static str },
    /// An error that occurred while working with a file path.
    Path { path: String },
    /// Other errors.
    Other { description: String },
}

/// The library's error: a kind, which says what went wrong.
#[derive(Debug, Clone, PartialEq, Eq)]
pub struct VkError {
    kind: VkErrorKind,
}

/// Joins three pieces of text.
fn join3(a: &str, b: &str, c: &str) -> (r: String)
    ensures
        r@ == a@ + b@ + c@,
{
    let mut s = String::from_str(a);
    s.append(b);
    s.append(c);
    s
}

/// The text `Debug` formatting gives the path `path`: quoted, with quotes,
/// backslashes and control characters escaped.
pub uninterp spec fn path_debug_text(path: Seq<char>) -> Seq<char>;

/// Calls the `Debug` formatting of `std::path::Path` on `path`; the text is
/// taken as `path_debug_text(path)`, nothing more is claimed of it.
#[verifier::external_body]
fn path_debug(path: &str) -> (r: String)
    ensures
        r@ == path_debug_text(path@),
{
    format!("{:?}", std::path::Path::new(path))
}

/// The message of a path that could not be located, from the `Debug` text
/// of the path.
pub fn path_message(debug_text: &str) -> (r: String)
    ensures
        r@ == "Failed to locate file at: "@ + debug_text@,
{
    let mut s = String::from_str("Failed to locate file at: ");
    s.append(debug_text);
    s
}

impl VkErrorKind {
    /// A convenience routine for creating an error associated with a path.
    pub fn path(path: &str) -> (r: VkErrorKind)
        ensures
            r matches VkErrorKind::Path { path: p } && p@ == path@,
    {
        VkErrorKind::Path { path: String::from_str(path) }
    }

    /// The text that describes this kind of error.
    pub open spec fn spec_message(&self) -> Seq<char> {
        match self {
            VkErrorKind::Unlink { target_name } =>
                "Failed to bridge connection between "@ + target_name@ + " and Vulkan."@,
            VkErrorKind::Query { query_target } =>
                "Failed to query "@ + query_target@ + " property from Vulkan or Device."@,
            VkErrorKind::Create { create_target } => "Failed to create "@ + create_target@ + "."@,
            VkErrorKind::UnSupport { feature } =>
                "Feature "@ + feature@ + " is not supported in current Vulkan Device."@,
            VkErrorKind::SwapchainSync(e) => e.spec_message(),
            VkErrorKind::Device { ops_description } => "Invalid Operation: "@ + ops_description@ + ""@,
            VkErrorKind::Shaderc { compile_message } =>
                "Error occurred during runtime shader compiling: "@ + compile_message@ + "."@,
            VkErrorKind::StrConvert { target } =>
                "Failed to convert string "@ + target@ + " between c-style string and Rust string."@,
            VkErrorKind::Path { path } => "Failed to locate file at: "@ + path_debug_text(path@),
            VkErrorKind::Other { description } => ""@ + description@ + ""@,
        }
    }

    /// The text that describes this kind of error.
    pub fn message(&self) -> (r: String)
        ensures
            r@ == self.spec_message(),
    {
        match self {
            VkErrorKind::Unlink { target_name } =>
                join3("Failed to bridge connection between ", target_name, " and Vulkan."),
            VkErrorKind::Query { query_target } =>
                join3("Failed to query ", query_target, " property from Vulkan or Device."),
            VkErrorKind::Create { create_target } => join3("Failed to create ", create_target, "."),
            VkErrorKind::UnSupport { feature } =>
                join3("Feature ", feature, " is not supported in current Vulkan Device."),
            VkErrorKind::SwapchainSync(e) => e.message(),
            VkErrorKind::Device { ops_description } => join3("Invalid Operation: ", ops_description, ""),
            VkErrorKind::Shaderc { compile_message } =>
                join3("Error occurred during runtime shader compiling: ", compile_message.as_str(), "."),
            VkErrorKind::StrConvert { target } =>
                join3("Failed to convert string ", target, " between c-style string and Rust string."),
            VkErrorKind::Path { path } => {
                let text = path_debug(path.as_str());
                path_message(text.as_str())
            },
            VkErrorKind::Other { description } => join3("", description.as_str(), ""),
        }
    }
}

impl VkError {
    /// The kind of this error.
    pub closed spec fn spec_kind(&self) -> VkErrorKind {
        self.kind
    }

    /// The kind of this error.
    pub fn kind(&self) -> (r: &VkErrorKind)
        ensures
            *r == self.spec_kind(),
    {
        &self.kind
    }

    /// Wraps a kind into an error.
    pub fn from_kind(kind: VkErrorKind) -> (r: VkError)
        ensures
            r.spec_kind() == kind,
    {
        VkError { kind }
    }

    pub fn unlink(target_name: &'static str) -> (r: VkError)
        ensures
            r.spec_kind() == (VkErrorKind::Unlink { target_name }),
    {
        VkError { kind: VkErrorKind::Unlink { target_name } }
    }

    pub fn query(query_target: &'static str) -> (r: VkError)
        ensures
            r.spec_kind() == (VkErrorKind::Query { query_target }),
    {
        VkError { kind: VkErrorKind::Query { query_target } }
    }

    pub fn create(create_target: &'static str) -> (r: VkError)
        ensures
            r.spec_kind() == (VkErrorKind::Create { create_target }),
    {
        VkError { kind: VkErrorKind::Create { create_target } }
    }

    pub fn unsupported(feature: &'static str) -> (r: VkError)
        ensures
            r.spec_kind() == (VkErrorKind::UnSupport { feature }),
    {
        VkError { kind: VkErrorKind::UnSupport { feature } }
    }

    pub fn swapchain_sync(error: SwapchainSyncError) -> (r: VkError)
        ensures
            r.spec_kind() == VkErrorKind::SwapchainSync(error),
    {
        VkError { kind: VkErrorKind::SwapchainSync(error) }
    }

    pub fn device(ops_description: &'static str) -> (r: VkError)
        ensures
            r.spec_kind() == (VkErrorKind::Device { ops_description }),
    {
        VkError { kind: VkErrorKind::Device { ops_description } }
    }

    pub fn shaderc(compile_message: &str) -> (r: VkError)
        ensures
            r.spec_kind() matches VkErrorKind::Shaderc { compile_message: m } && m@ == compile_message@,
    {
        VkError { kind: VkErrorKind::Shaderc { compile_message: String::from_str(compile_message) } }
    }

    pub fn str_convert(target: &'static str) -> (r: VkError)
        ensures
            r.spec_kind() == (VkErrorKind::StrConvert { target }),
    {
        VkError { kind: VkErrorKind::StrConvert { target } }
    }

    pub fn other(description: &str) -> (r: VkError)
        ensures
            r.spec_kind() matches VkErrorKind::Other { description: d } && d@ == description@,
    {
        VkError { kind: VkErrorKind::Other { description: String::from_str(description) } }
    }

    /// The text that describes this error.
    pub fn message(&self) -> (r: String)
        ensures
            r@ == self.spec_kind().spec_message(),
    {
        self.kind.message()
    }
}

} // verus!
