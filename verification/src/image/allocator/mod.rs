//! Planning the memory of a batch of images.

pub mod target;
pub mod distributor;

pub use self::target::ImageAllotCI;
