//! Allocating the descriptor sets of a batch of configurations.

pub mod target;
pub mod distributor;

pub use self::target::{ GsDescriptorAllocator, GsAssignIndex, IDescriptorSet };
pub use self::distributor::GsDescriptorDistributor;
