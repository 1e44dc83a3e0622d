//! Images: creation settings, layout transitions, copies and mip-chains.

pub mod enums;
pub mod format;
pub mod compress;
pub mod view;
pub mod target;
pub mod barrier;
pub mod copy;
pub mod entity;
pub mod mipmap;
pub mod storage;
pub mod allocator;
pub mod repository;
pub mod instance;

pub use self::target::{ GsImage, ImageTgtCI, ImagePropertyCI, ImageSpecificCI };
pub use self::view::{ ImageViewCI, ImageSubRange };
pub use self::enums::{ ImagePipelineStage, DepthStencilImageFormat, ImageInstanceType };
pub use self::barrier::ImageBarrierCI;
pub use self::mipmap::MipmapMethod;
