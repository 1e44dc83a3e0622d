//! The settings every image create info shares through its backend image.

use vstd::prelude::*;

use crate::error::VkError;
use crate::image::target::{ ImageTgtCI, ImagePropertyCI, ImageSpecificCI };
use crate::image::view::{ ImageViewCI, ImageSubRange, ComponentMapping };
use crate::image::compress::ImageCompressType;
use crate::image::mipmap::{ MipmapMethod, FormatFeatureSupport };
use crate::image::instance::base::image::{ GsBackendImage, spec_estimate_mip_levels };
use crate::image::instance::traits::IImageConveyor;

verus! {

/// An image create info built around a backend image: the shared settings
/// are changed on the backend, and nothing else of the create info moves.
pub trait ImageCIInheritApi: Sized {
    /// The backend image of the create info.
    spec fn spec_backend(&self) -> GsBackendImage;

    /// The create info with its backend image replaced by `backend`.
    spec fn spec_with_backend(&self, backend: GsBackendImage) -> Self;

    fn backend(&self) -> (r: &GsBackendImage)
        ensures
            *r == self.spec_backend(),
    ;

    fn backend_mut(&mut self) -> (r: &mut GsBackendImage)
        ensures
            *r == old(self).spec_backend(),
            *final(self) == old(self).spec_with_backend(*final(r)),
    ;

    /// Chooses how the mip-chain is produced (see `GsBackendImage::set_mipmap`).
    fn set_mipmap(&mut self, method: MipmapMethod)
        ensures
            *final(self) == old(self).spec_with_backend(old(self).spec_backend().spec_set_mipmap(method)),
    {
        self.backend_mut().set_mipmap(method);
    }

    /// The number of mip levels a full chain of the image has.
    fn estimate_mip_levels(&self) -> (r: u32)
        ensures
            r == spec_estimate_mip_levels(
                self.spec_backend().image_ci.specific.dimension.width,
                self.spec_backend().image_ci.specific.dimension.height,
            ),
    {
        self.backend().estimate_mip_levels()
    }

    fn set_tiling(&mut self, tiling: i32)
        ensures
            *final(self) == old(self).spec_with_backend(GsBackendImage {
                image_ci: ImageTgtCI {
                    property: ImagePropertyCI { tiling, ..old(self).spec_backend().image_ci.property },
                    ..old(self).spec_backend().image_ci
                },
                ..old(self).spec_backend()
            }),
    {
        self.backend_mut().set_tiling(tiling);
    }

    fn set_initial_layout(&mut self, layout: i32)
        ensures
            *final(self) == old(self).spec_with_backend(GsBackendImage {
                image_ci: ImageTgtCI {
                    property: ImagePropertyCI { initial_layout: layout, ..old(self).spec_backend().image_ci.property },
                    ..old(self).spec_backend().image_ci
                },
                ..old(self).spec_backend()
            }),
    {
        self.backend_mut().set_initial_layout(layout);
    }

    fn set_samples(&mut self, count: u32, mip_levels: u32, array_layers: u32)
        ensures
            *final(self) == old(self).spec_with_backend(GsBackendImage {
                image_ci: ImageTgtCI {
                    property: ImagePropertyCI {
                        sample_count: count,
                        mip_levels,
                        array_layers,
                        ..old(self).spec_backend().image_ci.property
                    },
                    ..old(self).spec_backend().image_ci
                },
                ..old(self).spec_backend()
            }),
    {
        self.backend_mut().set_samples(count, mip_levels, array_layers);
    }

    fn set_share_queues(&mut self, queue_family_indices: Vec<u32>)
        ensures
            *final(self) == old(self).spec_with_backend(GsBackendImage {
                image_ci: ImageTgtCI {
                    specific: ImageSpecificCI {
                        share_queue_families: Some(queue_family_indices),
                        ..old(self).spec_backend().image_ci.specific
                    },
                    ..old(self).spec_backend().image_ci
                },
                ..old(self).spec_backend()
            }),
    {
        self.backend_mut().set_share_queues(queue_family_indices);
    }

    fn set_compression(&mut self, compression: ImageCompressType)
        ensures
            *final(self) == old(self).spec_with_backend(GsBackendImage {
                image_ci: ImageTgtCI {
                    specific: ImageSpecificCI { compression, ..old(self).spec_backend().image_ci.specific },
                    ..old(self).spec_backend().image_ci
                },
                ..old(self).spec_backend()
            }),
    {
        self.backend_mut().set_compression(compression);
    }

    fn set_mapping_component(&mut self, r: i32, g: i32, b: i32, a: i32)
        ensures
            *final(self) == old(self).spec_with_backend(GsBackendImage {
                view_ci: ImageViewCI { components: ComponentMapping { r, g, b, a }, ..old(self).spec_backend().view_ci },
                ..old(self).spec_backend()
            }),
    {
        self.backend_mut().set_mapping_component(r, g, b, a);
    }

    /// Selects the mip levels and array layers the view can reach.
    fn set_subrange(&mut self, value: ImageSubRange)
        ensures
            *final(self) == old(self).spec_with_backend(GsBackendImage {
                view_ci: ImageViewCI { subrange: value, ..old(self).spec_backend().view_ci },
                ..old(self).spec_backend()
            }),
    {
        self.backend_mut().set_subrange(value);
    }
}

/// An image create info that the device is asked about before the image is made.
pub trait ImageCIApi: ImageCIInheritApi {
    /// What the create info hands to the image instance it becomes.
    type IConveyor: IImageConveyor;

    /// Whether the device's answer for the format can be read under the chosen settings.
    spec fn spec_support_checkable(&self) -> bool;

    /// Fails unless the format supports what the image is made for,
    /// given the format's features on the device.
    fn check_physical_support(&self, support: &FormatFeatureSupport) -> (r: Result<(), VkError>)
        requires
            self.spec_support_checkable(),
    ;
}

} // verus!
