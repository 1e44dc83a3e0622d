//! Handing out the image instances of an allocated batch.

use vstd::prelude::*;

use crate::image::target::GsImage;
use crate::image::entity::ImageEntity;
use crate::image::allocator::target::ImageAllotCI;
use crate::image::instance::traits::{ ImageInstance, ImageInstanceInfoDesc };
use crate::image::repository::GsImageRepository;
use crate::descriptor::allocator::target::GsAssignIndex;
use std::collections::HashSet;

verus! {

/// The images of an allocated batch, each with its view, and the samplers
/// made for them, by handle.
pub struct GsImageDistributor {
    pub image_allot_cis: Vec<ImageAllotCI>,
    pub views: Vec<u64>,
    pub samplers: HashSet<u64>,
}

impl GsImageDistributor {
    /// Every image has its view.
    pub open spec fn wf(&self) -> bool {
        self.views@.len() == self.image_allot_cis@.len()
    }

    /// The batch, with `views[k]` the view created for image `k`.
    pub fn new(image_allot_cis: Vec<ImageAllotCI>, samplers: HashSet<u64>, views: Vec<u64>) -> (r: GsImageDistributor)
        requires
            views@.len() == image_allot_cis@.len(),
        ensures
            r.wf(),
            r.image_allot_cis@ == image_allot_cis@,
            r.views@ == views@,
            r.samplers@ == samplers@,
    {
        GsImageDistributor { image_allot_cis, views, samplers }
    }

    /// The instance of the image assigned at `index`: its handles, its state
    /// after preparation, and what its create info handed on.
    pub fn acquire<R, T: ImageInstance<R>>(&self, index: GsAssignIndex<R>) -> (r: T)
        requires
            self.wf(),
            index.assign_index < self.image_allot_cis@.len(),
        ensures
            r.spec_conveyor() == index.convey_info,
            r.spec_entity() == (ImageEntity {
                image: self.image_allot_cis@[index.assign_index as int].image.handle,
                view: self.views@[index.assign_index as int],
            }),
            r.spec_desc() == (ImageInstanceInfoDesc {
                current_layout: self.image_allot_cis@[index.assign_index as int].current_layout,
                dimension: self.image_allot_cis@[index.assign_index as int].backend.storage.dimension,
                subrange: self.image_allot_cis@[index.assign_index as int].backend.view_ci.subrange,
            }),
    {
        let image_index = index.assign_index;
        let image_allot_ci = &self.image_allot_cis[image_index];
        let entity = ImageEntity::new(&image_allot_ci.image, self.views[image_index]);
        let desc = image_allot_ci.gen_desc();
        T::build(index.convey_info, entity, desc)
    }

    /// Hands every image, view and sampler of the batch to the repository
    /// that destroys them.
    pub fn into_repository(self) -> (r: GsImageRepository)
        ensures
            r.images@ == self.image_allot_cis@.map_values(|a: ImageAllotCI| a.image),
            r.views@ == self.views@,
            r.samplers@ == self.samplers@,
    {
        let mut images: Vec<GsImage> = Vec::new();
        let mut k: usize = 0;
        while k < self.image_allot_cis.len()
            invariant
                k <= self.image_allot_cis@.len(),
                images@ == self.image_allot_cis@.take(k as int).map_values(|a: ImageAllotCI| a.image),
            decreases self.image_allot_cis@.len() - k,
        {
            images.push(self.image_allot_cis[k].image);
            proof {
                assert(self.image_allot_cis@.take(k + 1 as int) =~= self.image_allot_cis@.take(k as int).push(self.image_allot_cis@[k as int]));
            }
            k = k + 1;
        }
        proof {
            assert(self.image_allot_cis@.take(k as int) =~= self.image_allot_cis@);
        }
        GsImageRepository::store(images, self.views, self.samplers)
    }
}

} // verus!
