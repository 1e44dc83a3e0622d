//! What a descriptor binding describes, and the writes that fill it.

pub mod traits;
pub mod content;
pub mod buffer;
pub mod image;

pub use self::traits::{ DescriptorBindingCI, DescriptorMeta, DescriptorArrayMeta, DescriptorMetaMirror };
pub use self::content::{ DescriptorBindingContent, DescriptorBufferBindingInfo, DescriptorImageBindingInfo, DescriptorWriteContent };
pub use self::buffer::DescriptorBindingBufInfo;
pub use self::image::{ DescriptorBindingImgInfo, DescriptorBindingImgArrayInfo, BindingImgArrayContent, DescriptorBindingImgArrayTgt };
