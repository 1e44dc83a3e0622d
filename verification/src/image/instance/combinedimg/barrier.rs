//! Preparing a group of combined image samplers for shaders.

use vstd::prelude::*;

use crate::error::{ VkError, VkErrorKind };
use crate::image::enums::{ ImagePipelineStage, ImageInstanceType };
use crate::image::allocator::target::ImageAllotCI;
use crate::image::instance::base::barrier::{
    SampleImageBarrierBundle as BaseBundle, SampleImageUploadPlan, spec_indices_of,
    spec_preparable, spec_group_has_data, spec_shader_readable_all, spec_upload_plan,
};

verus! {

/// The preparation of a group of combined image samplers read at `dst_stage`.
pub struct SampleImageBarrierBundle {
    pub info_indices: Vec<usize>,
    pub dst_stage: ImagePipelineStage,
}

impl SampleImageBarrierBundle {
    pub fn new(dst_stage: ImagePipelineStage, indices: Vec<usize>) -> (r: SampleImageBarrierBundle)
        ensures
            r.dst_stage == dst_stage,
            r.info_indices == indices,
    {
        SampleImageBarrierBundle { info_indices: indices, dst_stage }
    }

    /// Plans the preparation of the group as combined image samplers read at
    /// `dst_stage`: on success every image of the group ends readable from
    /// shaders and no other image is touched; on failure nothing is touched.
    pub fn make_barrier_transform(&self, infos: &mut Vec<ImageAllotCI>) -> (r: Result<SampleImageUploadPlan, VkError>)
        requires
            forall|k: int| 0 <= k < self.info_indices@.len() ==> #[trigger] self.info_indices@[k] < old(infos)@.len(),
            spec_group_has_data(old(infos)@, self.info_indices@) ==> spec_indices_of(old(infos)@, self.info_indices@)
                && spec_preparable(old(infos)@, self.info_indices@),
        ensures
            r is Ok <==> spec_group_has_data(old(infos)@, self.info_indices@),
            r is Err ==> final(infos)@ == old(infos)@,
            r matches Err(e) ==> (e.spec_kind() matches VkErrorKind::Other { description: d }
                && d@ == "The data of sample image is missing."@),
            r is Ok ==> final(infos)@ == spec_shader_readable_all(old(infos)@, self.info_indices@),
            r matches Ok(plan) ==> spec_upload_plan(
                plan,
                old(infos)@,
                self.info_indices@,
                ImageInstanceType::CombinedImageSampler { stage: self.dst_stage },
                self.dst_stage,
            ),
    {
        let image_type = ImageInstanceType::CombinedImageSampler { stage: self.dst_stage };
        let bundle = BaseBundle::new(self.dst_stage, image_type, self.info_indices.clone());
        bundle.make_barrier_transform(infos)
    }
}

} // verus!
