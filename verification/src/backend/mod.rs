//! The Vulkan backend: its decoder and encoder adapters without the device.

pub mod decode;
pub mod encode;
pub mod hevc_decode;
pub mod laws;
pub mod select;
pub mod status;
pub mod time;
