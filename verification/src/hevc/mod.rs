//! HEVC: the settings, checks and plans of the encode probe.

pub mod encode;
pub mod labels;
pub mod laws;
pub mod modes;
pub mod parity;
pub mod session;
pub mod submit;
