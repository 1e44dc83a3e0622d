//! Arrays of samplers bound as one descriptor array.

use vstd::prelude::*;

use crate::consts::{ IMAGE_LAYOUT_SHADER_READ_ONLY_OPTIMAL };
use crate::descriptor::types::{ GsDescriptorType, ImageDescriptorType };
use crate::descriptor::binding::traits::DescriptorArrayMeta;
use crate::descriptor::binding::image::{ DescriptorBindingImgArrayInfo, BindingImgArrayContent, DescriptorBindingImgArrayTgt };
use crate::image::instance::sampler::ci::SamplerCI;
use crate::image::instance::sampler::sampler::GsSamplerMirror;

verus! {

/// Samplers to create and bind as one array.
pub struct SamplerArrayCI {
    pub descriptor: DescriptorArrayMeta,
    pub sampler_cis: Vec<SamplerCI>,
}

/// Created samplers bound as one array.
pub struct GsSamplerArray {
    pub handles: Vec<u64>,
    pub descriptor: DescriptorArrayMeta,
}

impl SamplerArrayCI {
    /// The array's descriptor count is its number of samplers.
    pub open spec fn wf(&self) -> bool {
        self.descriptor.count == self.sampler_cis@.len()
    }

    /// Appends a sampler: the array grows by one descriptor.
    pub fn add_sampler(&mut self, sampler: SamplerCI)
        requires
            old(self).descriptor.count < u32::MAX,
        ensures
            final(self).sampler_cis@ == old(self).sampler_cis@.push(sampler),
            final(self).descriptor == (DescriptorArrayMeta { count: (old(self).descriptor.count + 1) as u32, ..old(self).descriptor }),
            old(self).wf() ==> final(self).wf(),
    {
        self.sampler_cis.push(sampler);
        self.descriptor.count = self.descriptor.count + 1;
    }

    /// The array of the created samplers: `handles[k]` is the sampler created from `sampler_cis[k]`.
    pub fn build(self, handles: Vec<u64>) -> (r: GsSamplerArray)
        requires
            handles@.len() == self.sampler_cis@.len(),
        ensures
            r.handles@ == handles@,
            r.descriptor == self.descriptor,
    {
        GsSamplerArray { handles, descriptor: self.descriptor }
    }
}

impl GsSamplerArray {
    /// An empty array of samplers bound at `binding`.
    pub fn new(binding: u32) -> (r: SamplerArrayCI)
        ensures
            r.descriptor == (DescriptorArrayMeta {
                binding,
                count: 0,
                descriptor_type: GsDescriptorType::Image(ImageDescriptorType::Sampler),
            }),
            r.sampler_cis@.len() == 0,
            r.wf(),
    {
        SamplerArrayCI {
            descriptor: DescriptorArrayMeta {
                binding,
                count: 0,
                descriptor_type: GsDescriptorType::Image(ImageDescriptorType::Sampler),
            },
            sampler_cis: Vec::new(),
        }
    }

    fn copy_handles(&self) -> (r: Vec<u64>)
        ensures
            r@ == self.handles@,
    {
        let mut r: Vec<u64> = Vec::new();
        let mut k: usize = 0;
        while k < self.handles.len()
            invariant
                k <= self.handles@.len(),
                r@ == self.handles@.take(k as int),
            decreases self.handles.len() - k,
        {
            r.push(self.handles[k]);
            assert(r@ =~= self.handles@.take(k + 1));
            k = k + 1;
        }
        assert(self.handles@.take(self.handles.len() as int) =~= self.handles@);
        r
    }

    /// The mirror of each sampler, in order.
    pub fn mirrors(&self) -> (r: Vec<GsSamplerMirror>)
        ensures
            r@.len() == self.handles@.len(),
            forall|k: int| 0 <= k < r@.len() ==> (#[trigger] r@[k]).0 == self.handles@[k],
    {
        let mut r: Vec<GsSamplerMirror> = Vec::new();
        let mut k: usize = 0;
        while k < self.handles.len()
            invariant
                k <= self.handles@.len(),
                r@.len() == k,
                forall|q: int| 0 <= q < k ==> (#[trigger] r@[q]).0 == self.handles@[q],
            decreases self.handles.len() - k,
        {
            r.push(GsSamplerMirror(self.handles[k]));
            k = k + 1;
        }
        r
    }
}

impl DescriptorBindingImgArrayTgt for GsSamplerArray {
    /// The array bound with one sampler per descriptor, no image view, read in the shader-read layout.
    open spec fn spec_binding_matches(&self, info: DescriptorBindingImgArrayInfo) -> bool {
        &&& info.meta == self.descriptor
        &&& info.content matches BindingImgArrayContent::MultiSamplers { samplers, view_handle, dst_layout } && samplers@
            == self.handles@ && view_handle == 0 && dst_layout == IMAGE_LAYOUT_SHADER_READ_ONLY_OPTIMAL
    }

    fn binding_info(&self) -> (r: DescriptorBindingImgArrayInfo) {
        DescriptorBindingImgArrayInfo {
            meta: self.descriptor,
            content: BindingImgArrayContent::MultiSamplers {
                samplers: self.copy_handles(),
                view_handle: 0,
                dst_layout: IMAGE_LAYOUT_SHADER_READ_ONLY_OPTIMAL,
            },
        }
    }
}

} // verus!
