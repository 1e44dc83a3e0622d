//! What an allocated batch of images leaves to be destroyed.

use vstd::prelude::*;

use crate::image::target::GsImage;
use std::collections::HashSet;

verus! {

/// The images, views and samplers (by handle) of a batch, destroyed together.
pub struct GsImageRepository {
    pub images: Vec<GsImage>,
    pub views: Vec<u64>,
    pub samplers: HashSet<u64>,
}

impl GsImageRepository {
    pub fn store(images: Vec<GsImage>, views: Vec<u64>, samplers: HashSet<u64>) -> (r: GsImageRepository)
        ensures
            r.images@ == images@,
            r.views@ == views@,
            r.samplers@ == samplers@,
    {
        GsImageRepository { images, views, samplers }
    }
}

} // verus!
