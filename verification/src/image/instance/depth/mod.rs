//! Depth-stencil attachments.

pub mod ci;
pub mod image;
pub mod info;
pub mod barrier;

pub use self::image::{ GsDSAttachment, IDepthStencilImg };
pub use self::ci::DSAttachmentCI;
pub use self::info::GsDSAttachmentInfo;
pub use self::barrier::DepSteImageBarrierBundle;
