//! Swapchain property selection and presentation outcomes.

pub mod chain;
pub mod support;
pub mod builder;
pub mod error;

pub use self::chain::{ GsSwapchain, SwapchainConfig, SwapchainSyncError };
pub use self::support::SwapchainSupport;
pub use self::builder::SwapchainBuilder;
pub use self::error::SwapchainInitError;
