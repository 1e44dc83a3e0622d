//! Preparing depth-stencil attachments.

use vstd::prelude::*;

use crate::consts::{ IMAGE_LAYOUT_DEPTH_STENCIL_ATTACHMENT_OPTIMAL, ACCESS_NONE, ACCESS_DEPTH_STENCIL_ATTACHMENT_READ, ACCESS_DEPTH_STENCIL_ATTACHMENT_WRITE, PIPELINE_STAGE_TOP_OF_PIPE, PIPELINE_STAGE_EARLY_FRAGMENT_TESTS };
use crate::image::barrier::{ ImageBarrierCI, spec_barrier };
use crate::image::allocator::target::ImageAllotCI;

verus! {

/// The preparation of a group of depth-stencil attachments.
pub struct DepSteImageBarrierBundle {
    pub info_indices: Vec<usize>,
}

/// The barrier that makes an attachment usable for depth-stencil tests: from
/// its initial layout to the depth-stencil attachment layout.
pub open spec fn spec_depth_barrier(info: ImageAllotCI) -> ImageBarrierCI {
    spec_barrier(
        info.image.handle,
        info.backend.view_ci.subrange,
        ACCESS_NONE,
        ACCESS_DEPTH_STENCIL_ATTACHMENT_READ | ACCESS_DEPTH_STENCIL_ATTACHMENT_WRITE,
        info.backend.image_ci.property.initial_layout,
        IMAGE_LAYOUT_DEPTH_STENCIL_ATTACHMENT_OPTIMAL,
    )
}

/// The attachment once prepared: in the depth-stencil attachment layout.
pub open spec fn spec_depth_ready(info: ImageAllotCI) -> ImageAllotCI {
    ImageAllotCI { current_layout: IMAGE_LAYOUT_DEPTH_STENCIL_ATTACHMENT_OPTIMAL, ..info }
}

/// The barriers of a group of attachments, recorded from the top of the pipe
/// to the early fragment tests.
pub struct DepthStencilPlan {
    pub barriers: Vec<ImageBarrierCI>,
    pub src_stage: u32,
    pub dst_stage: u32,
}

impl DepSteImageBarrierBundle {
    pub fn new(indices: Vec<usize>) -> (r: DepSteImageBarrierBundle)
        ensures
            r.info_indices == indices,
    {
        DepSteImageBarrierBundle { info_indices: indices }
    }

    /// Puts one attachment in the depth-stencil attachment layout, and returns the barrier that does it.
    pub fn final_barrier(&self, info: &mut ImageAllotCI) -> (r: ImageBarrierCI)
        ensures
            r == spec_depth_barrier(*old(info)),
            *final(info) == spec_depth_ready(*old(info)),
    {
        info.current_layout = IMAGE_LAYOUT_DEPTH_STENCIL_ATTACHMENT_OPTIMAL;
        ImageBarrierCI::new(&info.image, info.backend.view_ci.subrange)
            .access_mask(ACCESS_NONE, ACCESS_DEPTH_STENCIL_ATTACHMENT_READ | ACCESS_DEPTH_STENCIL_ATTACHMENT_WRITE)
            .layout(info.backend.image_ci.property.initial_layout, IMAGE_LAYOUT_DEPTH_STENCIL_ATTACHMENT_OPTIMAL)
            .build()
    }

    /// Plans the preparation of the group: every attachment goes to the
    /// depth-stencil attachment layout; no other image is touched.
    pub fn make_barrier_transform(&self, infos: &mut Vec<ImageAllotCI>) -> (plan: DepthStencilPlan)
        requires
            forall|k: int| 0 <= k < self.info_indices@.len() ==> #[trigger] self.info_indices@[k] < old(infos)@.len(),
        ensures
            plan.barriers@ == self.info_indices@.map_values(|i: usize| spec_depth_barrier(old(infos)@[i as int])),
            plan.src_stage == PIPELINE_STAGE_TOP_OF_PIPE,
            plan.dst_stage == PIPELINE_STAGE_EARLY_FRAGMENT_TESTS,
            final(infos)@.len() == old(infos)@.len(),
            forall|j: int| 0 <= j < old(infos)@.len() ==> #[trigger] final(infos)@[j] == if self.info_indices@.contains(j as usize) {
                spec_depth_ready(old(infos)@[j])
            } else {
                old(infos)@[j]
            },
    {
        let ghost infos0 = infos@;
        let mut barriers: Vec<ImageBarrierCI> = Vec::new();
        let mut k: usize = 0;
        while k < self.info_indices.len()
            invariant
                k <= self.info_indices.len(),
                forall|k: int| 0 <= k < self.info_indices@.len() ==> #[trigger] self.info_indices@[k] < infos0.len(),
                infos@.len() == infos0.len(),
                forall|j: int| 0 <= j < infos0.len() ==> #[trigger] infos@[j] == if self.info_indices@.take(k as int).contains(j as usize) {
                    spec_depth_ready(infos0[j])
                } else {
                    infos0[j]
                },
                barriers@ == self.info_indices@.take(k as int).map_values(|i: usize| spec_depth_barrier(infos0[i as int])),
            decreases self.info_indices.len() - k,
        {
            let index = self.info_indices[k];
            let ghost p0 = self.info_indices@.take(k as int);
            let ghost p1 = self.info_indices@.take(k + 1);
            assert(p1 =~= p0.push(index));
            let ghost before = infos@[index as int];
            // the attachment's barrier does not depend on its current state,
            // so a repeated index gives the same barrier
            assert(spec_depth_barrier(before) == spec_depth_barrier(infos0[index as int]));
            let barrier = self.final_barrier(&mut infos[index]);
            barriers.push(barrier);
            proof {
                assert(infos.len() == infos@.len());
                assert forall|j: int| 0 <= j < infos0.len() implies #[trigger] infos@[j] == if p1.contains(j as usize) {
                    spec_depth_ready(infos0[j])
                } else {
                    infos0[j]
                } by {
                    assert((j as usize) as int == j);
                    if j == index as int {
                        assert(p1[k as int] == index);
                    } else {
                        assert(p1.contains(j as usize) == p0.contains(j as usize)) by {
                            if p1.contains(j as usize) {
                                let q = choose|q: int| 0 <= q < p1.len() && #[trigger] p1[q] == j as usize;
                                assert(q < k);
                                assert(p0[q] == j as usize);
                            }
                            if p0.contains(j as usize) {
                                let q = choose|q: int| 0 <= q < p0.len() && #[trigger] p0[q] == j as usize;
                                assert(p1[q] == j as usize);
                            }
                        }
                    }
                }
                assert(barriers@ =~= p1.map_values(|i: usize| spec_depth_barrier(infos0[i as int])));
            }
            k = k + 1;
        }
        assert(self.info_indices@.take(self.info_indices.len() as int) =~= self.info_indices@);
        DepthStencilPlan {
            barriers,
            src_stage: PIPELINE_STAGE_TOP_OF_PIPE,
            dst_stage: PIPELINE_STAGE_EARLY_FRAGMENT_TESTS,
        }
    }
}

} // verus!
