//! What a surface supports, and the swapchain properties chosen from it.

use vstd::prelude::*;

use crate::consts::{ FORMAT_UNDEFINED };
use crate::types::Dim2D;
use crate::error::VkError;
use crate::swapchain::chain::SwapchainConfig;

verus! {

/// The capabilities of a surface, as the physical device reports them.
#[derive(Debug, Clone, Copy, PartialEq, Eq)]
pub struct SurfaceCapabilities {
    pub min_image_count: u32,
    pub max_image_count: u32,
    pub current_extent: Dim2D,
    pub min_image_extent: Dim2D,
    pub max_image_extent: Dim2D,
    pub max_image_array_layers: u32,
    pub supported_transforms: u32,
    pub current_transform: u32,
    pub supported_composite_alpha: u32,
    pub supported_usage_flags: u32,
}

/// A format and colour space pair a surface supports.
#[derive(Debug, Clone, Copy, PartialEq, Eq)]
pub struct SurfaceFormat {
    pub format: i32,
    pub color_space: i32,
}

/// What a surface supports, and what the application prefers.
pub struct SwapchainSupport {
    pub capabilities: SurfaceCapabilities,
    pub formats: Vec<SurfaceFormat>,
    pub present_modes: Vec<i32>,
    pub config: SwapchainConfig,
}

/// The extent value by which a surface lets the swapchain choose its extent.
pub const SPECIAL_EXTENT: u32 = 0xFFFF_FFFF;

/// `input` brought into `[min, max]`.
pub open spec fn spec_clamp(input: u32, min: u32, max: u32) -> u32 {
    if input < min {
        min
    } else if input > max {
        max
    } else {
        input
    }
}

/// Calls `num::clamp`, which returns `min` below `min`, `max` above `max`,
/// and `input` otherwise; it asserts (in debug builds) that `min <= max`.
#[verifier::external_body]
fn clamp_u32(input: u32, min: u32, max: u32) -> (r: u32)
    requires
        min <= max,
    ensures
        r == spec_clamp(input, min, max),
{
    num::clamp(input, min, max)
}

impl SwapchainSupport {
    /// Gathers what was queried of the surface with the application's preferences.
    pub fn query_support(
        capabilities: SurfaceCapabilities,
        formats: Vec<SurfaceFormat>,
        present_modes: Vec<i32>,
        config: &SwapchainConfig,
    ) -> (r: SwapchainSupport)
        ensures
            r.capabilities == capabilities,
            r.formats@ == formats@,
            r.present_modes@ == present_modes@,
            r.config == *config,
    {
        SwapchainSupport { capabilities, formats, present_modes, config: *config }
    }

    /// When the surface leaves the extent to the swapchain, the extents it
    /// allows form a range in each direction.
    pub open spec fn spec_extent_choosable(&self) -> bool {
        let c = self.capabilities;
        c.current_extent.width == SPECIAL_EXTENT && c.current_extent.height == SPECIAL_EXTENT ==> {
            &&& c.min_image_extent.width <= c.max_image_extent.width
            &&& c.min_image_extent.height <= c.max_image_extent.height
        }
    }

    /// The extent of the swapchain images: the surface's current extent, unless
    /// the surface leaves it to the swapchain, in which case the window's size
    /// brought into the extents the surface allows.
    pub open spec fn spec_optimal_extent(&self, window_size: Dim2D) -> Dim2D {
        let c = self.capabilities;
        if c.current_extent.width == SPECIAL_EXTENT && c.current_extent.height == SPECIAL_EXTENT {
            Dim2D {
                width: spec_clamp(window_size.width, c.min_image_extent.width, c.max_image_extent.width),
                height: spec_clamp(window_size.height, c.min_image_extent.height, c.max_image_extent.height),
            }
        } else {
            c.current_extent
        }
    }

    pub fn optimal_extent(&self, window_size: &Dim2D) -> (r: Result<Dim2D, VkError>)
        requires
            self.spec_extent_choosable(),
        ensures
            r == Ok::<Dim2D, VkError>(self.spec_optimal_extent(*window_size)),
    {
        let c = &self.capabilities;
        let optimal_extent = if c.current_extent.width == SPECIAL_EXTENT && c.current_extent.height == SPECIAL_EXTENT {
            Dim2D {
                width: clamp_u32(window_size.width, c.min_image_extent.width, c.max_image_extent.width),
                height: clamp_u32(window_size.height, c.min_image_extent.height, c.max_image_extent.height),
            }
        } else {
            c.current_extent
        };
        Ok(optimal_extent)
    }

    /// The preferred format and colour space.
    pub open spec fn spec_preferred_format(&self) -> SurfaceFormat {
        SurfaceFormat { format: self.config.prefer_surface_format, color_space: self.config.prefer_surface_color_space }
    }

    /// The format of the swapchain images: the preferred one when the surface
    /// has no preference or supports it, the surface's first format otherwise.
    pub open spec fn spec_optimal_format(&self) -> SurfaceFormat {
        if self.formats@.len() == 1 && self.formats@[0].format == FORMAT_UNDEFINED {
            self.spec_preferred_format()
        } else if self.formats@.contains(self.spec_preferred_format()) {
            self.spec_preferred_format()
        } else {
            self.formats@[0]
        }
    }

    pub fn optimal_format(&self) -> (r: SurfaceFormat)
        requires
            self.formats@.len() > 0,
        ensures
            r == self.spec_optimal_format(),
    {
        if self.formats.len() == 1 && self.formats[0].format == FORMAT_UNDEFINED {
            return SurfaceFormat {
                format: self.config.prefer_surface_format,
                color_space: self.config.prefer_surface_color_space,
            };
        }
        let mut k: usize = 0;
        while k < self.formats.len()
            invariant
                k <= self.formats@.len(),
                forall|q: int| 0 <= q < k ==> self.formats@[q] != self.spec_preferred_format(),
            decreases self.formats.len() - k,
        {
            let available_format = self.formats[k];
            if available_format.format == self.config.prefer_surface_format
                && available_format.color_space == self.config.prefer_surface_color_space {
                assert(self.formats@[k as int] == self.spec_preferred_format());
                return available_format;
            }
            k = k + 1;
        }
        self.formats[0]
    }

    /// The present mode: the primary preference if supported, else the
    /// secondary one if supported, else the surface's first mode.
    pub open spec fn spec_optimal_present_mode(&self) -> i32 {
        if self.present_modes@.contains(self.config.prefer_primary_present_mode) {
            self.config.prefer_primary_present_mode
        } else if self.present_modes@.contains(self.config.prefer_secondary_present_mode) {
            self.config.prefer_secondary_present_mode
        } else {
            self.present_modes@[0]
        }
    }

    pub fn optimal_present_mode(&self) -> (r: i32)
        requires
            self.present_modes@.len() > 0,
        ensures
            r == self.spec_optimal_present_mode(),
    {
        if contains_mode(&self.present_modes, self.config.prefer_primary_present_mode) {
            self.config.prefer_primary_present_mode
        } else if contains_mode(&self.present_modes, self.config.prefer_secondary_present_mode) {
            self.config.prefer_secondary_present_mode
        } else {
            self.present_modes[0]
        }
    }

    pub fn current_transform(&self) -> (r: u32)
        ensures
            r == self.capabilities.current_transform,
    {
        self.capabilities.current_transform
    }
}

/// The chosen extent is the surface's current extent, unless the surface
/// leaves the extent to the swapchain; then each side lies within the
/// surface's bounds for that side, and is the window's side whenever that
/// already lies within them, the bound it passes otherwise.
pub proof fn lemma_optimal_extent_within_bounds(support: SwapchainSupport, window_size: Dim2D)
    requires
        support.spec_extent_choosable(),
    ensures
        ({
            let c = support.capabilities;
            let r = support.spec_optimal_extent(window_size);
            &&& !(c.current_extent.width == SPECIAL_EXTENT && c.current_extent.height == SPECIAL_EXTENT)
                ==> r == c.current_extent
            &&& c.current_extent.width == SPECIAL_EXTENT && c.current_extent.height == SPECIAL_EXTENT ==> {
                &&& c.min_image_extent.width <= r.width <= c.max_image_extent.width
                &&& c.min_image_extent.height <= r.height <= c.max_image_extent.height
                &&& c.min_image_extent.width <= window_size.width <= c.max_image_extent.width
                    ==> r.width == window_size.width
                &&& c.min_image_extent.height <= window_size.height <= c.max_image_extent.height
                    ==> r.height == window_size.height
                &&& window_size.width < c.min_image_extent.width ==> r.width == c.min_image_extent.width
                &&& window_size.width > c.max_image_extent.width ==> r.width == c.max_image_extent.width
                &&& window_size.height < c.min_image_extent.height ==> r.height == c.min_image_extent.height
                &&& window_size.height > c.max_image_extent.height ==> r.height == c.max_image_extent.height
            }
        }),
{
}

/// The chosen surface format is one the surface lists, unless the surface
/// lists only an undefined format (it has no preference), in which case it is
/// the preferred one; it is the preferred format and colour space exactly
/// when the surface lists that pair, and the surface's first format otherwise.
pub proof fn lemma_optimal_format_is_listed(support: SwapchainSupport)
    requires
        support.formats@.len() > 0,
    ensures
        ({
            let formats = support.formats@;
            let preferred = SurfaceFormat {
                format: support.config.prefer_surface_format,
                color_space: support.config.prefer_surface_color_space,
            };
            let r = support.spec_optimal_format();
            &&& formats.len() == 1 && formats[0].format == FORMAT_UNDEFINED ==> r == preferred
            &&& !(formats.len() == 1 && formats[0].format == FORMAT_UNDEFINED) ==> {
                &&& formats.contains(r)
                &&& (r == preferred <==> formats.contains(preferred))
                &&& !formats.contains(preferred) ==> r == formats[0]
            }
        }),
{
    let formats = support.formats@;
    assert(formats[0] == formats[0]);
    assert(formats.contains(formats[0]));
}

fn contains_mode(modes: &Vec<i32>, mode: i32) -> (r: bool)
    ensures
        r == modes@.contains(mode),
{
    let mut k: usize = 0;
    while k < modes.len()
        invariant
            k <= modes@.len(),
            forall|q: int| 0 <= q < k ==> modes@[q] != mode,
        decreases modes.len() - k,
    {
        if modes[k] == mode {
            assert(modes@[k as int] == mode);
            return true;
        }
        k = k + 1;
    }
    false
}

} // verus!
