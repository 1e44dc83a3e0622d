//! Descriptor sets: their bindings, layouts, pools and allocation.

pub mod types;
pub mod binding;

pub use self::types::{ GsDescriptorType, BufferDescriptorType, ImageDescriptorType };
pub use self::binding::{ DescriptorBindingContent, DescriptorMeta, DescriptorArrayMeta, DescriptorMetaMirror };
pub mod set;
pub mod layout;
pub mod pool;
pub mod allocator;
pub mod entity;
