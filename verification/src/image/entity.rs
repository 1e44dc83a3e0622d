//! The handles an image instance refers to.

use vstd::prelude::*;

use crate::image::target::GsImage;

verus! {

/// The handles of an image and of its view.
#[derive(Debug, Clone, Copy, PartialEq, Eq)]
pub struct ImageEntity {
    pub image: u64,
    pub view: u64,
}

impl ImageEntity {
    pub fn new(image: &GsImage, view: u64) -> (r: ImageEntity)
        ensures
            r.image == image.handle,
            r.view == view,
    {
        ImageEntity { image: image.handle, view }
    }

    /// The handle of the image.
    pub fn handle(&self) -> (r: u64)
        ensures
            r == self.image,
    {
        self.image
    }
}

} // verus!
