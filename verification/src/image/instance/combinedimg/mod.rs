//! Combined image samplers: an image read in shaders through its own sampler.

pub mod ci;
pub mod image;
pub mod barrier;

pub use self::image::{ GsCombinedImgSampler, ICombinedImg };
pub use self::ci::CombinedImgSamplerCI;
pub use self::barrier::SampleImageBarrierBundle;
