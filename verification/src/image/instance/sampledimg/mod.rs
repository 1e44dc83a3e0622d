//! Sampled images: images read in shaders with a sampler bound elsewhere.

pub mod ci;
pub mod image;

pub use self::image::{ GsSampledImage, ISampledImg };
pub use self::ci::SampledImageCI;
