//! Image instances: the kinds of images the library can prepare.

pub mod traits;
pub mod api;
pub mod base;
pub mod sample;
pub mod depth;
pub mod sampler;
pub mod combinedimg;
pub mod sampledimg;
pub mod cubemap;
pub mod binding_layout;
