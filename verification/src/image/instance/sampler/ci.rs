//! Sampler create settings.

use vstd::prelude::*;

use crate::consts::{ FILTER_LINEAR, SAMPLER_MIPMAP_MODE_LINEAR, SAMPLER_ADDRESS_MODE_REPEAT, COMPARE_OP_ALWAYS, BORDER_COLOR_INT_OPAQUE_BLACK, VK_TRUE, VK_FALSE };
use crate::error::{ VkError, VkErrorKind };
use crate::descriptor::binding::traits::DescriptorMeta;
use crate::descriptor::types::{ GsDescriptorType, ImageDescriptorType };
use crate::image::instance::sampler::sampler::GsSampler;
use crate::image::instance::base::image::{ spec_mip_level_count, mip_level_count };
use vstd::arithmetic::power2::{ pow2, lemma2_to64, lemma_pow2_unfold, lemma_pow2_adds, lemma_pow2_strictly_increases };

verus! {

/// The values a sampler is created with. The level-of-detail and anisotropy
/// values are IEEE-754 single precision numbers, held by their bits.
#[derive(Debug, Clone, Copy, PartialEq, Eq)]
pub struct SamplerCreateInfo {
    pub flags: u32,
    pub mag_filter: i32,
    pub min_filter: i32,
    pub mipmap_mode: i32,
    pub address_mode_u: i32,
    pub address_mode_v: i32,
    pub address_mode_w: i32,
    pub mip_lod_bias_bits: u32,
    pub anisotropy_enable: u32,
    pub max_anisotropy_bits: u32,
    pub compare_enable: u32,
    pub compare_op: i32,
    pub min_lod_bits: u32,
    pub max_lod_bits: u32,
    pub border_color: i32,
    pub unnormalized_coordinates: u32,
}

/// The bits of the single precision number 1.0.
pub const F32_ONE_BITS: u32 = 0x3F80_0000;

/// The bits of the single precision number equal to `n`, for `n` below 2^24
/// (where every integer is exact): sign 0, biased exponent `127 + e` with
/// `e = floor(log2 n)`, and the bits of `n` below its top bit as the fraction.
pub open spec fn spec_f32_bits_of_u32(n: u32) -> int {
    if n == 0 {
        0
    } else {
        let e = spec_mip_level_count(n as nat) - 1;
        (127 + e) * pow2(23) + (n - pow2(e as nat)) * pow2((23 - e) as nat)
    }
}

/// The top bit of `x` is bit `floor(log2 x)`, which the mip level count of `x` is one more than.
proof fn lemma_mip_level_count_pow2(x: nat)
    requires
        x >= 1,
    ensures
        pow2((spec_mip_level_count(x) - 1) as nat) <= x < pow2(spec_mip_level_count(x)),
    decreases x,
{
    if x == 1 {
        lemma2_to64();
    } else {
        lemma_mip_level_count_pow2(x / 2);
        let c = spec_mip_level_count(x / 2);
        lemma_pow2_unfold(c);
        lemma_pow2_unfold(c + 1);
    }
}

/// The bits of the single precision number equal to `n`.
pub fn f32_bits_of_u32(n: u32) -> (r: u32)
    requires
        n < 0x100_0000,
    ensures
        r == spec_f32_bits_of_u32(n),
{
    if n == 0 {
        return 0;
    }
    let e: u32 = mip_level_count(n) - 1;
    proof {
        lemma_mip_level_count_pow2(n as nat);
        lemma2_to64();
        if e > 23 {
            lemma_pow2_strictly_increases(24, e as nat);
        }
    }
    let mut p: u32 = 1;
    let mut i: u32 = 0;
    while i < e
        invariant
            i <= e <= 23,
            p == pow2(i as nat),
        decreases e - i,
    {
        proof {
            lemma2_to64();
            lemma_pow2_strictly_increases(i as nat, 23);
            lemma_pow2_unfold((i + 1) as nat);
        }
        p = p * 2;
        i = i + 1;
    }
    let mut scale: u32 = 1;
    let mut j: u32 = 0;
    while j < 23 - e
        invariant
            e <= 23,
            j <= 23 - e,
            scale == pow2(j as nat),
        decreases 23 - e - j,
    {
        proof {
            lemma2_to64();
            lemma_pow2_strictly_increases(j as nat, 23);
            lemma_pow2_unfold((j + 1) as nat);
        }
        scale = scale * 2;
        j = j + 1;
    }
    proof {
        lemma_pow2_adds(e as nat, (23 - e) as nat);
        assert((n - p) * scale < p * scale) by (nonlinear_arith)
            requires
                n - p < p,
                scale > 0,
        ;
        assert((127 + e) * 0x80_0000 <= 150 * 0x80_0000) by (nonlinear_arith)
            requires
                e <= 23,
        ;
    }
    (127 + e) * 0x80_0000 + (n - p) * scale
}

/// Sampler create info: the sampler's values, and the descriptor it is bound as, once set.
#[derive(Debug, Clone, Copy, PartialEq, Eq)]
pub struct SamplerCI {
    pub descriptor: Option<DescriptorMeta>,
    pub ci: SamplerCreateInfo,
}

impl SamplerCreateInfo {
    /// Linear filtering and mip-mapping, repeated addressing, no bias, no
    /// anisotropy, no comparison, a single level of detail, opaque black
    /// border, normalized coordinates.
    pub open spec fn spec_default() -> SamplerCreateInfo {
        SamplerCreateInfo {
            flags: 0,
            mag_filter: FILTER_LINEAR,
            min_filter: FILTER_LINEAR,
            mipmap_mode: SAMPLER_MIPMAP_MODE_LINEAR,
            address_mode_u: SAMPLER_ADDRESS_MODE_REPEAT,
            address_mode_v: SAMPLER_ADDRESS_MODE_REPEAT,
            address_mode_w: SAMPLER_ADDRESS_MODE_REPEAT,
            mip_lod_bias_bits: 0,
            anisotropy_enable: VK_FALSE,
            max_anisotropy_bits: F32_ONE_BITS,
            compare_enable: VK_FALSE,
            compare_op: COMPARE_OP_ALWAYS,
            min_lod_bits: 0,
            max_lod_bits: 0,
            border_color: BORDER_COLOR_INT_OPAQUE_BLACK,
            unnormalized_coordinates: VK_FALSE,
        }
    }
}

/// A sampler with the default values (as `GsSampler::new`, `new_descriptor`
/// and every image that owns a sampler start with) is an ordinary filtering
/// sampler: linear filters and mip-mapping, repeated addressing in every
/// direction, no anisotropy, no depth comparison, normalized coordinates.
/// Turning comparison or anisotropy off leaves it as it is.
pub proof fn lemma_default_sampler_filters_plainly(sampler: SamplerCI)
    requires
        sampler.ci == SamplerCreateInfo::spec_default(),
    ensures
        ({
            let d = sampler.ci;
            &&& d.compare_enable == VK_FALSE
            &&& d.anisotropy_enable == VK_FALSE
            &&& d.mag_filter == FILTER_LINEAR
            &&& d.min_filter == FILTER_LINEAR
            &&& d.mipmap_mode == SAMPLER_MIPMAP_MODE_LINEAR
            &&& d.address_mode_u == SAMPLER_ADDRESS_MODE_REPEAT
            &&& d.address_mode_v == SAMPLER_ADDRESS_MODE_REPEAT
            &&& d.address_mode_w == SAMPLER_ADDRESS_MODE_REPEAT
            &&& d.unnormalized_coordinates == VK_FALSE
            &&& d.mip_lod_bias_bits == 0
            &&& (SamplerCreateInfo { compare_enable: VK_FALSE, ..d }) == d
            &&& (SamplerCreateInfo { anisotropy_enable: VK_FALSE, ..d }) == d
        }),
{
}

impl GsSampler {
    /// A sampler with the default values and no descriptor yet.
    pub fn new() -> (r: SamplerCI)
        ensures
            r.descriptor is None,
            r.ci == SamplerCreateInfo::spec_default(),
    {
        SamplerCI { descriptor: None, ..SamplerCI::inner_default() }
    }

    /// A sampler with the default values, bound as a sampler descriptor at `binding`.
    pub fn new_descriptor(binding: u32) -> (r: SamplerCI)
        ensures
            r.descriptor == Some(DescriptorMeta { binding, descriptor_type: GsDescriptorType::Image(ImageDescriptorType::Sampler) }),
            r.ci == SamplerCreateInfo::spec_default(),
    {
        let descriptor = DescriptorMeta { binding, descriptor_type: GsDescriptorType::Image(ImageDescriptorType::Sampler) };
        SamplerCI { descriptor: Some(descriptor), ..SamplerCI::inner_default() }
    }
}

impl SamplerCI {
    pub fn inner_default() -> (r: SamplerCI)
        ensures
            r.descriptor is None,
            r.ci == SamplerCreateInfo::spec_default(),
    {
        SamplerCI {
            descriptor: None,
            ci: SamplerCreateInfo {
                flags: 0,
                mag_filter: FILTER_LINEAR,
                min_filter: FILTER_LINEAR,
                mipmap_mode: SAMPLER_MIPMAP_MODE_LINEAR,
                address_mode_u: SAMPLER_ADDRESS_MODE_REPEAT,
                address_mode_v: SAMPLER_ADDRESS_MODE_REPEAT,
                address_mode_w: SAMPLER_ADDRESS_MODE_REPEAT,
                mip_lod_bias_bits: 0,
                anisotropy_enable: VK_FALSE,
                max_anisotropy_bits: F32_ONE_BITS,
                compare_enable: VK_FALSE,
                compare_op: COMPARE_OP_ALWAYS,
                min_lod_bits: 0,
                max_lod_bits: 0,
                border_color: BORDER_COLOR_INT_OPAQUE_BLACK,
                unnormalized_coordinates: VK_FALSE,
            },
        }
    }

    /// The descriptor the sampler is to be bound as; a sampler cannot be
    /// created before its descriptor binding is set.
    pub fn build_descriptor(&self) -> (r: Result<DescriptorMeta, VkError>)
        ensures
            r is Ok <==> self.descriptor is Some,
            r matches Ok(d) ==> self.descriptor == Some(d),
            r matches Err(e) ==> (e.spec_kind() matches VkErrorKind::Other { description: m }
                && m@ == "Descriptor binding must be set before creating vk::Sampler."@),
    {
        match self.descriptor {
            Some(d) => Ok(d),
            None => Err(VkError::other("Descriptor binding must be set before creating vk::Sampler.")),
        }
    }

    pub fn reset_descriptor(&mut self, descriptor: DescriptorMeta)
        ensures
            *final(self) == (SamplerCI { descriptor: Some(descriptor), ..*old(self) }),
    {
        self.descriptor = Some(descriptor);
    }

    /// Takes the values of another sampler, keeping this one's descriptor.
    pub fn reset_ci(&mut self, sampler_ci: SamplerCI)
        ensures
            *final(self) == (SamplerCI { ci: sampler_ci.ci, ..*old(self) }),
    {
        self.ci = sampler_ci.ci;
    }

    pub fn take_ci(self) -> (r: SamplerCreateInfo)
        ensures
            r == self.ci,
    {
        self.ci
    }

    /// `mag` and `min` are the magnification and minification filters.
    pub fn filter(self, mag: i32, min: i32) -> (r: SamplerCI)
        ensures
            r == (SamplerCI { ci: SamplerCreateInfo { mag_filter: mag, min_filter: min, ..self.ci }, ..self }),
    {
        let mut s = self;
        s.ci.mag_filter = mag;
        s.ci.min_filter = min;
        s
    }

    /// `mode` is the mipmap filter; `u`, `v`, `w` the addressing modes outside [0..1].
    pub fn mipmap(self, mode: i32, u: i32, v: i32, w: i32) -> (r: SamplerCI)
        ensures
            r == (SamplerCI {
                ci: SamplerCreateInfo { mipmap_mode: mode, address_mode_u: u, address_mode_v: v, address_mode_w: w, ..self.ci },
                ..self
            }),
    {
        let mut s = self;
        s.ci.mipmap_mode = mode;
        s.ci.address_mode_u = u;
        s.ci.address_mode_v = v;
        s.ci.address_mode_w = w;
        s
    }

    /// The level-of-detail bias and clamps, as the bits of single precision numbers.
    pub fn lod(self, mip_bias_bits: u32, min_bits: u32, max_bits: u32) -> (r: SamplerCI)
        ensures
            r == (SamplerCI {
                ci: SamplerCreateInfo { mip_lod_bias_bits: mip_bias_bits, min_lod_bits: min_bits, max_lod_bits: max_bits, ..self.ci },
                ..self
            }),
    {
        let mut s = self;
        s.ci.mip_lod_bias_bits = mip_bias_bits;
        s.ci.min_lod_bits = min_bits;
        s.ci.max_lod_bits = max_bits;
        s
    }

    /// Enables anisotropy with the given clamp (the bits of a single precision
    /// number), or disables it, keeping the last clamp.
    pub fn anisotropy(self, max_bits: Option<u32>) -> (r: SamplerCI)
        ensures
            r == match max_bits {
                Some(m) => SamplerCI { ci: SamplerCreateInfo { anisotropy_enable: VK_TRUE, max_anisotropy_bits: m, ..self.ci }, ..self },
                None => SamplerCI { ci: SamplerCreateInfo { anisotropy_enable: VK_FALSE, ..self.ci }, ..self },
            },
    {
        let mut s = self;
        match max_bits {
            Some(m) => {
                s.ci.anisotropy_enable = VK_TRUE;
                s.ci.max_anisotropy_bits = m;
            },
            None => {
                s.ci.anisotropy_enable = VK_FALSE;
            },
        }
        s
    }

    /// Enables comparison with the given operation, or disables it, keeping the last operation.
    pub fn compare_op(self, op: Option<i32>) -> (r: SamplerCI)
        ensures
            r == match op {
                Some(o) => SamplerCI { ci: SamplerCreateInfo { compare_enable: VK_TRUE, compare_op: o, ..self.ci }, ..self },
                None => SamplerCI { ci: SamplerCreateInfo { compare_enable: VK_FALSE, ..self.ci }, ..self },
            },
    {
        let mut s = self;
        match op {
            Some(o) => {
                s.ci.compare_enable = VK_TRUE;
                s.ci.compare_op = o;
            },
            None => {
                s.ci.compare_enable = VK_FALSE;
            },
        }
        s
    }

    pub fn border_color(self, color: i32) -> (r: SamplerCI)
        ensures
            r == (SamplerCI { ci: SamplerCreateInfo { border_color: color, ..self.ci }, ..self }),
    {
        let mut s = self;
        s.ci.border_color = color;
        s
    }

    /// Whether texels are addressed by unnormalized coordinates.
    pub fn unnormalize_coordinates_enable(self, enable: bool) -> (r: SamplerCI)
        ensures
            r == (SamplerCI {
                ci: SamplerCreateInfo { unnormalized_coordinates: if enable { VK_TRUE } else { VK_FALSE }, ..self.ci },
                ..self
            }),
    {
        let mut s = self;
        s.ci.unnormalized_coordinates = if enable { VK_TRUE } else { VK_FALSE };
        s
    }
}

} // verus!
