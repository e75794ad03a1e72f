//! The renderer's decisions: capability negotiation, device selection,
//! swapchain settings, pipeline description, resource requests and the
//! per-frame protocol.

pub mod buffers;
pub mod commands;
pub mod constants;
pub mod device;
pub mod errors;
pub mod extensions;
pub mod pipeline;
pub mod presentation;
pub mod release;
pub mod textures;
pub mod vk_app;
