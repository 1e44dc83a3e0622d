//! Image bindings.

use vstd::prelude::*;

use crate::descriptor::set::GsDescriptorSet;
use crate::descriptor::binding::traits::{ DescriptorBindingCI, DescriptorMeta, DescriptorArrayMeta, DescriptorMetaMirror };
use crate::descriptor::binding::content::{ DescriptorImageInfo, WriteDescriptorSet, VKWrapperPair, DescriptorImageWrite };

verus! {

/// The information to generate one image descriptor.
#[derive(Debug, Clone, Copy, PartialEq, Eq)]
pub struct DescriptorBindingImgInfo {
    pub meta: DescriptorMeta,
    /// the handle of sampler.
    pub sampler_handle: u64,
    /// the handle of image view where the descriptor data stores.
    pub view_handle: u64,
    /// what the layout is for this descriptor in shader.
    pub dst_layout: i32,
}

/// The content of an array of image descriptors.
pub enum BindingImgArrayContent {
    MultiSamplers {
        /// one sampler for each descriptor of the array.
        samplers: Vec<u64>,
        /// the handle of image view where the descriptor data stores.
        view_handle: u64,
        /// what the layout is for this descriptor in shader.
        dst_layout: i32,
    },
}

/// Something that can be bound as an array of image descriptors.
pub trait DescriptorBindingImgArrayTgt {
    /// Whether `info` is how this target is bound.
    spec fn spec_binding_matches(&self, info: DescriptorBindingImgArrayInfo) -> bool;

    fn binding_info(&self) -> (r: DescriptorBindingImgArrayInfo)
        ensures
            self.spec_binding_matches(r),
    ;
}

/// Array version of DescriptorBindingImgInfo.
pub struct DescriptorBindingImgArrayInfo {
    pub meta: DescriptorArrayMeta,
    pub content: BindingImgArrayContent,
}

impl DescriptorBindingCI for DescriptorBindingImgInfo {
    open spec fn spec_meta_mirror(&self) -> DescriptorMetaMirror {
        DescriptorMetaMirror { binding: self.meta.binding, count: 1, descriptor_type: self.meta.descriptor_type }
    }

    fn meta_mirror(&self) -> (r: DescriptorMetaMirror)
        ensures
            r == self.spec_meta_mirror(),
    {
        self.meta.mirror()
    }
}

impl DescriptorBindingImgInfo {

    /// The write of the descriptor into `set`.
    pub fn write_info(&self, set: &GsDescriptorSet) -> (r: DescriptorImageWrite)
        ensures
            r.content@ == seq![DescriptorImageInfo {
                sampler: self.sampler_handle,
                image_view: self.view_handle,
                image_layout: self.dst_layout,
            }],
            r.info == (WriteDescriptorSet {
                dst_set: set.handle,
                dst_binding: self.meta.binding,
                dst_array_element: 0,
                descriptor_count: 1,
                descriptor_type: self.meta.descriptor_type.spec_raw(),
            }),
    {
        let mut contents: Vec<DescriptorImageInfo> = Vec::new();
        contents.push(DescriptorImageInfo {
            sampler: self.sampler_handle,
            image_view: self.view_handle,
            image_layout: self.dst_layout,
        });
        let write = WriteDescriptorSet {
            dst_set: set.handle,
            dst_binding: self.meta.binding,
            dst_array_element: 0,
            descriptor_count: 1,
            descriptor_type: self.meta.descriptor_type.to_raw(),
        };
        VKWrapperPair { content: contents, info: write }
    }
}

impl DescriptorBindingCI for DescriptorBindingImgArrayInfo {
    open spec fn spec_meta_mirror(&self) -> DescriptorMetaMirror {
        DescriptorMetaMirror { binding: self.meta.binding, count: self.meta.count, descriptor_type: self.meta.descriptor_type }
    }

    fn meta_mirror(&self) -> (r: DescriptorMetaMirror)
        ensures
            r == self.spec_meta_mirror(),
    {
        self.meta.mirror()
    }
}

impl DescriptorBindingImgArrayInfo {

    /// The write of the array into `set`: one descriptor per sampler, each
    /// with the array's view and layout; there must be one sampler per descriptor.
    pub fn write_info(&self, set: &GsDescriptorSet) -> (r: DescriptorImageWrite)
        requires
            self.content matches BindingImgArrayContent::MultiSamplers { samplers, .. } && samplers@.len() == self.meta.count,
        ensures
            self.content matches BindingImgArrayContent::MultiSamplers { samplers, view_handle, dst_layout } && {
                &&& r.content@.len() == samplers@.len()
                &&& forall|k: int| 0 <= k < r.content@.len() ==> #[trigger] r.content@[k] == (DescriptorImageInfo {
                    sampler: samplers@[k],
                    image_view: view_handle,
                    image_layout: dst_layout,
                })
            },
            r.info == (WriteDescriptorSet {
                dst_set: set.handle,
                dst_binding: self.meta.binding,
                dst_array_element: 0,
                descriptor_count: self.meta.count,
                descriptor_type: self.meta.descriptor_type.spec_raw(),
            }),
    {
        let contents = match &self.content {
            BindingImgArrayContent::MultiSamplers { samplers, view_handle, dst_layout } => {
                let mut contents: Vec<DescriptorImageInfo> = Vec::new();
                let mut k: usize = 0;
                while k < samplers.len()
                    invariant
                        k <= samplers@.len(),
                        contents@.len() == k,
                        forall|q: int| 0 <= q < k ==> #[trigger] contents@[q] == (DescriptorImageInfo {
                            sampler: samplers@[q],
                            image_view: *view_handle,
                            image_layout: *dst_layout,
                        }),
                    decreases samplers.len() - k,
                {
                    contents.push(DescriptorImageInfo {
                        sampler: samplers[k],
                        image_view: *view_handle,
                        image_layout: *dst_layout,
                    });
                    k = k + 1;
                }
                contents
            },
        };
        let write = WriteDescriptorSet {
            dst_set: set.handle,
            dst_binding: self.meta.binding,
            dst_array_element: 0,
            descriptor_count: self.meta.count,
            descriptor_type: self.meta.descriptor_type.to_raw(),
        };
        VKWrapperPair { content: contents, info: write }
    }
}

} // verus!
