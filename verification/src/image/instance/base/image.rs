//! The settings every image instance is made of.

use vstd::prelude::*;

use crate::consts::{ IMAGE_TYPE_2D, IMAGE_USAGE_TRANSFER_SRC, IMAGE_USAGE_TRANSFER_DST, IMAGE_USAGE_SAMPLED, IMAGE_ASPECT_COLOR, IMAGE_VIEW_TYPE_2D, IMAGE_TILING_OPTIMAL, IMAGE_TILING_LINEAR };
use crate::error::{ VkError, VkErrorKind };
use crate::types::{ spec_max, max_u32 };
use crate::image::target::{ ImageTgtCI, ImagePropertyCI, ImageSpecificCI };
use crate::image::view::{ ImageViewCI, ImageSubRange, ComponentMapping };
use crate::image::storage::ImageStorageInfo;
use crate::image::mipmap::{ MipmapMethod, FormatFeatureSupport };
use crate::image::compress::ImageCompressType;
use crate::image::format::{ unsupported_format_message, spec_unsupported_format_message };

verus! {

/// The image, view and content settings of an image instance.
#[derive(Debug, PartialEq, Eq)]
pub struct GsBackendImage {
    pub image_ci: ImageTgtCI,
    pub view_ci: ImageViewCI,
    pub storage: ImageStorageInfo,
}

/// The number of mip levels of a chain down from an extent of `x`:
/// `floor(log2(x)) + 1`, and 1 for an empty extent.
pub open spec fn spec_mip_level_count(x: nat) -> nat
    decreases x,
{
    if x <= 1 {
        1
    } else {
        1 + spec_mip_level_count(x / 2)
    }
}

proof fn lemma_mip_level_count_bound(x: nat, k: nat)
    requires
        k >= 1,
        x < vstd::arithmetic::power2::pow2(k),
    ensures
        spec_mip_level_count(x) <= k,
    decreases k,
{
    if x > 1 {
        vstd::arithmetic::power2::lemma_pow2_unfold(k);
        if k == 1 {
            assert(vstd::arithmetic::power2::pow2(0) == 1) by {
                vstd::arithmetic::power2::lemma2_to64();
            }
        } else {
            lemma_mip_level_count_bound(x / 2, (k - 1) as nat);
        }
    }
}

/// The mip levels of an image of extent `x`: at most 32.
pub proof fn lemma_mip_level_count_u32(x: u32)
    ensures
        1 <= spec_mip_level_count(x as nat) <= 32,
{
    vstd::arithmetic::power2::lemma2_to64();
    lemma_mip_level_count_bound(x as nat, 32);
}

/// The mip levels a full chain of an image of the given width and height has.
pub open spec fn spec_estimate_mip_levels(width: u32, height: u32) -> u32 {
    spec_mip_level_count(spec_max(width as int, height as int) as nat) as u32
}

/// `floor(log2(x)) + 1`, and 1 for 0.
pub fn mip_level_count(x: u32) -> (r: u32)
    ensures
        r == spec_mip_level_count(x as nat),
        1 <= r <= 32,
{
    proof {
        lemma_mip_level_count_u32(x);
    }
    let mut rest = x;
    let mut count: u32 = 1;
    while rest > 1
        invariant
            count + spec_mip_level_count(rest as nat) - 1 == spec_mip_level_count(x as nat),
            spec_mip_level_count(x as nat) <= 32,
            count >= 1,
        decreases rest,
    {
        rest = rest / 2;
        count = count + 1;
    }
    count
}

impl GsBackendImage {
    /// The settings of an image holding `storage`: default properties, the
    /// storage's format and extent, and a default view.
    pub fn from_storage(storage: ImageStorageInfo) -> (r: GsBackendImage)
        ensures
            r.image_ci.property == ImagePropertyCI::spec_default(),
            r.image_ci.specific == (ImageSpecificCI {
                format: storage.format,
                dimension: storage.dimension,
                ..ImageSpecificCI::spec_default()
            }),
            r.view_ci == ImageViewCI::spec_new(IMAGE_VIEW_TYPE_2D, IMAGE_ASPECT_COLOR),
            r.storage == storage,
    {
        let property = ImagePropertyCI::default_ci();
        let mut specific = ImageSpecificCI::default_ci();
        specific.format = storage.format;
        specific.dimension = storage.dimension;
        GsBackendImage {
            storage,
            image_ci: ImageTgtCI { property, specific },
            view_ci: ImageViewCI::default_ci(),
        }
    }

    /// The settings of a 2D, optimally tiled image holding `storage` that
    /// shaders sample and that receives its data by transfer, with no mip-chain.
    pub open spec fn spec_sampled(storage: ImageStorageInfo) -> GsBackendImage {
        GsBackendImage {
            image_ci: ImageTgtCI {
                property: ImagePropertyCI {
                    image_type: IMAGE_TYPE_2D,
                    tiling: IMAGE_TILING_OPTIMAL,
                    usages: IMAGE_USAGE_SAMPLED | IMAGE_USAGE_TRANSFER_DST,
                    mipmap: MipmapMethod::Disable,
                    ..ImagePropertyCI::spec_default()
                },
                specific: ImageSpecificCI {
                    format: storage.format,
                    dimension: storage.dimension,
                    ..ImageSpecificCI::spec_default()
                },
            },
            view_ci: ImageViewCI::spec_new(IMAGE_VIEW_TYPE_2D, IMAGE_ASPECT_COLOR),
            storage,
        }
    }

    pub fn sampled(storage: ImageStorageInfo) -> (r: GsBackendImage)
        ensures
            r == GsBackendImage::spec_sampled(storage),
    {
        let mut backend = GsBackendImage::from_storage(storage);
        backend.image_ci.property.image_type = IMAGE_TYPE_2D;
        backend.image_ci.property.tiling = IMAGE_TILING_OPTIMAL;
        backend.image_ci.property.usages = IMAGE_USAGE_SAMPLED | IMAGE_USAGE_TRANSFER_DST;
        backend.image_ci.property.mipmap = MipmapMethod::Disable;
        backend
    }

    /// The number of mip levels a full chain of this image has.
    pub fn estimate_mip_levels(&self) -> (r: u32)
        ensures
            r == spec_estimate_mip_levels(self.image_ci.specific.dimension.width, self.image_ci.specific.dimension.height),
            1 <= r <= 32,
    {
        let max_extent = max_u32(self.image_ci.specific.dimension.width, self.image_ci.specific.dimension.height);
        mip_level_count(max_extent)
    }

    /// The settings after choosing how the mip-chain is produced.
    pub open spec fn spec_set_mipmap(self, method: MipmapMethod) -> GsBackendImage {
        let levels: u32 = if method == MipmapMethod::Disable {
            1
        } else {
            spec_estimate_mip_levels(self.image_ci.specific.dimension.width, self.image_ci.specific.dimension.height)
        };
        let usages = if method == MipmapMethod::Disable {
            IMAGE_USAGE_SAMPLED | IMAGE_USAGE_TRANSFER_DST
        } else {
            IMAGE_USAGE_SAMPLED | IMAGE_USAGE_TRANSFER_SRC | IMAGE_USAGE_TRANSFER_DST
        };
        GsBackendImage {
            image_ci: ImageTgtCI {
                property: ImagePropertyCI { mipmap: method, usages, mip_levels: levels, ..self.image_ci.property },
                specific: self.image_ci.specific,
            },
            view_ci: ImageViewCI {
                subrange: self.view_ci.subrange.spec_with_mip_level(0, levels),
                ..self.view_ci
            },
            storage: self.storage,
        }
    }

    /// Choosing how the mip-chain is produced twice is choosing the second
    /// way only: the last choice decides the settings, whatever came before,
    /// and choosing the same way again changes nothing.
    pub proof fn lemma_set_mipmap_last_wins(self, first: MipmapMethod, second: MipmapMethod)
        ensures
            self.spec_set_mipmap(first).spec_set_mipmap(second) == self.spec_set_mipmap(second),
            self.spec_set_mipmap(second).spec_set_mipmap(second) == self.spec_set_mipmap(second),
    {
    }

    /// Chooses how the mip-chain is produced: without one the image keeps a
    /// single level; with one it gets a full chain and may also be a transfer source.
    pub fn set_mipmap(&mut self, method: MipmapMethod)
        ensures
            *final(self) == old(self).spec_set_mipmap(method),
    {
        self.image_ci.property.mipmap = method;
        match method {
            MipmapMethod::Disable => {
                self.image_ci.property.usages = IMAGE_USAGE_SAMPLED | IMAGE_USAGE_TRANSFER_DST;
                self.image_ci.property.mip_levels = 1;
                self.view_ci.subrange.base_mip_level = 0;
                self.view_ci.subrange.level_count = 1;
            },
            MipmapMethod::StepBlit | MipmapMethod::BaseLevelBlit => {
                let mip_level = self.estimate_mip_levels();
                self.image_ci.property.usages = IMAGE_USAGE_SAMPLED | IMAGE_USAGE_TRANSFER_SRC | IMAGE_USAGE_TRANSFER_DST;
                self.image_ci.property.mip_levels = mip_level;
                self.view_ci.subrange.base_mip_level = 0;
                self.view_ci.subrange.level_count = mip_level;
            },
        }
    }

    pub fn set_tiling(&mut self, tiling: i32)
        ensures
            final(self).image_ci.property == (ImagePropertyCI { tiling, ..old(self).image_ci.property }),
            final(self).image_ci.specific == old(self).image_ci.specific,
            final(self).view_ci == old(self).view_ci,
            final(self).storage == old(self).storage,
    {
        self.image_ci.property.tiling = tiling;
    }

    pub fn set_initial_layout(&mut self, layout: i32)
        ensures
            final(self).image_ci.property == (ImagePropertyCI { initial_layout: layout, ..old(self).image_ci.property }),
            final(self).image_ci.specific == old(self).image_ci.specific,
            final(self).view_ci == old(self).view_ci,
            final(self).storage == old(self).storage,
    {
        self.image_ci.property.initial_layout = layout;
    }

    pub fn set_samples(&mut self, count: u32, mip_levels: u32, array_layers: u32)
        ensures
            final(self).image_ci.property == (ImagePropertyCI {
                sample_count: count,
                mip_levels,
                array_layers,
                ..old(self).image_ci.property
            }),
            final(self).image_ci.specific == old(self).image_ci.specific,
            final(self).view_ci == old(self).view_ci,
            final(self).storage == old(self).storage,
    {
        self.image_ci.property.sample_count = count;
        self.image_ci.property.mip_levels = mip_levels;
        self.image_ci.property.array_layers = array_layers;
    }

    pub fn set_share_queues(&mut self, queue_family_indices: Vec<u32>)
        ensures
            final(self).image_ci.property == old(self).image_ci.property,
            final(self).image_ci.specific == (ImageSpecificCI {
                share_queue_families: Some(queue_family_indices),
                ..old(self).image_ci.specific
            }),
            final(self).view_ci == old(self).view_ci,
            final(self).storage == old(self).storage,
    {
        self.image_ci.specific.share_queue_families(Some(queue_family_indices));
    }

    pub fn set_compression(&mut self, compression: ImageCompressType)
        ensures
            final(self).image_ci.property == old(self).image_ci.property,
            final(self).image_ci.specific == (ImageSpecificCI { compression, ..old(self).image_ci.specific }),
            final(self).view_ci == old(self).view_ci,
            final(self).storage == old(self).storage,
    {
        self.image_ci.specific.compression = compression;
    }

    pub fn set_mapping_component(&mut self, r: i32, g: i32, b: i32, a: i32)
        ensures
            final(self).image_ci == old(self).image_ci,
            final(self).view_ci == (ImageViewCI { components: ComponentMapping { r, g, b, a }, ..old(self).view_ci }),
            final(self).storage == old(self).storage,
    {
        self.view_ci.components = ComponentMapping { r, g, b, a };
    }

    pub fn set_subrange(&mut self, value: ImageSubRange)
        ensures
            final(self).image_ci == old(self).image_ci,
            final(self).view_ci == (ImageViewCI { subrange: value, ..old(self).view_ci }),
            final(self).storage == old(self).storage,
    {
        self.view_ci.subrange = value;
    }

    /// Whether the format supports the chosen way of producing the mip-chain
    /// under the chosen tiling, given the format's features on the device.
    pub open spec fn spec_mipmap_supported(&self, support: FormatFeatureSupport) -> bool {
        self.image_ci.property.mipmap.spec_is_support_by_device(self.image_ci.property.tiling, support)
    }

    /// Fails, naming the format, when it cannot have its mip-chain produced as chosen.
    pub fn check_mipmap_support(&self, support: &FormatFeatureSupport) -> (r: Result<(), VkError>)
        requires
            self.image_ci.property.mipmap != MipmapMethod::Disable ==> (self.image_ci.property.tiling
                == IMAGE_TILING_LINEAR || self.image_ci.property.tiling == IMAGE_TILING_OPTIMAL),
        ensures
            r is Ok <==> self.spec_mipmap_supported(*support),
            r matches Err(e) ==> (e.spec_kind() matches VkErrorKind::Other { description: d }
                && d@ == spec_unsupported_format_message(self.image_ci.specific.format, "mipmap generation"@)),
    {
        if self.image_ci.property.mipmap.is_support_by_device(self.image_ci.property.tiling, support) {
            Ok(())
        } else {
            let msg = unsupported_format_message(&self.image_ci.specific.format, "mipmap generation");
            Err(VkError::other(msg.as_str()))
        }
    }
}

} // verus!
