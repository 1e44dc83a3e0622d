//! Samplers, alone or in arrays.

pub mod ci;
pub mod sampler;
pub mod array;

pub use self::ci::{ SamplerCI, SamplerCreateInfo };
pub use self::sampler::{ GsSampler, GsSamplerMirror };
pub use self::array::{ GsSamplerArray, SamplerArrayCI };
