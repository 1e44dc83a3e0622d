//! Where an image's content comes from.

use vstd::prelude::*;

use crate::types::Dim3D;
use crate::image::format::GsImageFormat;

verus! {

/// Pixel data to upload into an image.
#[derive(Debug, PartialEq, Eq)]
pub struct ImageSourceData {
    pub data: Vec<u8>,
}

/// The content source of an image.
#[derive(Debug, PartialEq, Eq)]
pub enum ImageSource {
    NoSource,
    UploadData(ImageSourceData),
}

/// The content, format and extent of an image.
#[derive(Debug, PartialEq, Eq)]
pub struct ImageStorageInfo {
    pub source: ImageSource,
    pub format: GsImageFormat,
    pub dimension: Dim3D,
}

} // verus!
