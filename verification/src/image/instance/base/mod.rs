//! What all image instances share: their settings, and the preparation of sampled images.

pub mod image;
pub mod mipmap;
pub mod agree;
pub mod barrier;

pub use self::image::GsBackendImage;
