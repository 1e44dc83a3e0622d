//! Cube maps: six-layer images read in shaders through their own sampler.

pub mod ci;
pub mod image;

pub use self::image::{ GsCubeMapImg, ICubeMap };
pub use self::ci::CubeMapImgCI;
