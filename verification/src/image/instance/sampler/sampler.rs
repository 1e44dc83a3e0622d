//! Created samplers.

use vstd::prelude::*;

use crate::consts::{ IMAGE_LAYOUT_SHADER_READ_ONLY_OPTIMAL };
use crate::descriptor::binding::traits::DescriptorMeta;
use crate::descriptor::binding::image::DescriptorBindingImgInfo;
use crate::descriptor::set::DescriptorBindingImgTgt;

verus! {

/// A created sampler, with the descriptor it is bound as.
#[derive(Debug, Clone, Copy, PartialEq, Eq)]
pub struct GsSampler {
    pub handle: u64,
    pub descriptor: DescriptorMeta,
}

/// The handle of a sampler, which owns nothing and is used to destroy it later.
#[derive(Debug, Clone, Copy, PartialEq, Eq, Hash)]
pub struct GsSamplerMirror(pub u64);

impl GsSampler {
    pub fn mirror(&self) -> (r: GsSamplerMirror)
        ensures
            r.0 == self.handle,
    {
        GsSamplerMirror(self.handle)
    }
}

impl DescriptorBindingImgTgt for GsSampler {
    /// The sampler alone, read in the shader-read layout.
    open spec fn spec_binding_info(&self) -> DescriptorBindingImgInfo {
        DescriptorBindingImgInfo {
            meta: self.descriptor,
            sampler_handle: self.handle,
            view_handle: 0,
            dst_layout: IMAGE_LAYOUT_SHADER_READ_ONLY_OPTIMAL,
        }
    }

    fn binding_info(&self) -> (r: DescriptorBindingImgInfo) {
        DescriptorBindingImgInfo {
            meta: self.descriptor,
            sampler_handle: self.handle,
            view_handle: 0,
            dst_layout: IMAGE_LAYOUT_SHADER_READ_ONLY_OPTIMAL,
        }
    }
}

} // verus!
