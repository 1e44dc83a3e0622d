//! Sample images: a texture with its own sampler.

pub mod mipmap;
pub mod ci;
pub mod info;
pub mod image;

pub use self::mipmap::MipmapMethod;
pub use self::ci::SampleImageCI;
pub use self::info::GsSampleImgInfo;
pub use self::image::{ GsSampleImage, ISampleImg };
