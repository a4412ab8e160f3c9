//! Capability negotiation and staged bring-up decisions for a graphics
//! device: which instance extensions and layers to enable, which physical
//! device and queue family to use, the swapchain parameters, and the framing
//! of compiled shader modules.

pub mod bootstrap;
pub mod device;
pub mod error;
pub mod instance;
pub mod layers;
pub mod names;
pub mod shader;
pub mod swapchain;
