//! Image formats, compressed or not.

use vstd::prelude::*;
use vstd::string::*;

use crate::consts::{ FORMAT_R8G8B8A8_UNORM, VK_TRUE };

verus! {

/// The compression-related texture features a device has enabled (`VkBool32` values).
#[derive(Debug, Clone, Copy, PartialEq, Eq)]
pub struct CompressionFeatures {
    pub texture_compression_bc: u32,
    pub texture_compression_astc_ldr: u32,
    pub texture_compression_etc2: u32,
}

/// An image format; the payload is the `VkFormat` value.
#[derive(Debug, Clone, Copy, PartialEq, Eq, Structural, Hash)]
pub enum GsImageFormat {
    Uncompressed(i32),
    CompressionBC(i32),
    CompressionASTCLdr(i32),
    CompressionETC2(i32),
}

impl GsImageFormat {
    /// The default image format: uncompressed RGBA, 8 bits a channel.
    pub fn default_format() -> (r: GsImageFormat)
        ensures
            r == GsImageFormat::Uncompressed(FORMAT_R8G8B8A8_UNORM),
    {
        GsImageFormat::Uncompressed(FORMAT_R8G8B8A8_UNORM)
    }

    /// Whether a device with the given enabled features supports this format.
    pub open spec fn spec_is_support_by_device(self, features: CompressionFeatures) -> bool {
        match self {
            GsImageFormat::Uncompressed(_) => true,
            GsImageFormat::CompressionBC(_) => features.texture_compression_bc == VK_TRUE,
            GsImageFormat::CompressionASTCLdr(_) => features.texture_compression_astc_ldr == VK_TRUE,
            GsImageFormat::CompressionETC2(_) => features.texture_compression_etc2 == VK_TRUE,
        }
    }

    pub fn is_support_by_device(&self, features: &CompressionFeatures) -> (r: bool)
        ensures
            r == self.spec_is_support_by_device(*features),
    {
        match self {
            GsImageFormat::Uncompressed(_) => true,
            GsImageFormat::CompressionBC(_) => features.texture_compression_bc == VK_TRUE,
            GsImageFormat::CompressionASTCLdr(_) => features.texture_compression_astc_ldr == VK_TRUE,
            GsImageFormat::CompressionETC2(_) => features.texture_compression_etc2 == VK_TRUE,
        }
    }

    /// The `VkFormat` value of this format.
    pub open spec fn spec_raw(self) -> i32 {
        match self {
            GsImageFormat::Uncompressed(f) => f,
            GsImageFormat::CompressionBC(f) => f,
            GsImageFormat::CompressionASTCLdr(f) => f,
            GsImageFormat::CompressionETC2(f) => f,
        }
    }

    pub fn to_raw(&self) -> (r: i32)
        ensures
            r == self.spec_raw(),
    {
        match self {
            GsImageFormat::Uncompressed(f) => *f,
            GsImageFormat::CompressionBC(f) => *f,
            GsImageFormat::CompressionASTCLdr(f) => *f,
            GsImageFormat::CompressionETC2(f) => *f,
        }
    }
}

} // verus!

verus! {

/// The name that `ash` prints for the `VkFormat` value `raw`.
pub uninterp spec fn vk_format_debug_name(raw: i32) -> Seq<char>;

/// Calls the `Debug` formatting of `ash::vk::Format` on the format `raw`;
/// the text is taken as `vk_format_debug_name(raw)`, nothing more is claimed of it.
#[verifier::external_body]
fn format_debug_name(raw: i32) -> (r: String)
    ensures
        r@ == vk_format_debug_name(raw),
{
    format!("{:?}", ash::vk::Format::from_raw(raw))
}

impl GsImageFormat {
    /// How this format is written in messages: the family, then the Vulkan format name.
    pub open spec fn spec_describe(self) -> Seq<char> {
        let family = match self {
            GsImageFormat::Uncompressed(_) => "Uncompressed("@,
            GsImageFormat::CompressionBC(_) => "CompressionBC("@,
            GsImageFormat::CompressionASTCLdr(_) => "CompressionASTCLdr("@,
            GsImageFormat::CompressionETC2(_) => "CompressionETC2("@,
        };
        family + vk_format_debug_name(self.spec_raw()) + ")"@
    }

    pub fn describe(&self) -> (r: String)
        ensures
            r@ == self.spec_describe(),
    {
        let mut s = match self {
            GsImageFormat::Uncompressed(_) => String::from_str("Uncompressed("),
            GsImageFormat::CompressionBC(_) => String::from_str("CompressionBC("),
            GsImageFormat::CompressionASTCLdr(_) => String::from_str("CompressionASTCLdr("),
            GsImageFormat::CompressionETC2(_) => String::from_str("CompressionETC2("),
        };
        let name = format_debug_name(self.to_raw());
        s.append(name.as_str());
        s.append(")");
        s
    }
}

/// The message of the error raised when a format lacks what `purpose` needs.
pub open spec fn spec_unsupported_format_message(format: GsImageFormat, purpose: Seq<char>) -> Seq<char> {
    "vk::Format: "@ + format.spec_describe() + " is not support for "@ + purpose
}

pub fn unsupported_format_message(format: &GsImageFormat, purpose: &str) -> (r: String)
    ensures
        r@ == spec_unsupported_format_message(*format, purpose@),
{
    let mut s = String::from_str("vk::Format: ");
    let d = format.describe();
    s.append(d.as_str());
    s.append(" is not support for ");
    s.append(purpose);
    s
}

} // verus!
