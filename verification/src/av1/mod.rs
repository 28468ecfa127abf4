//! AV1: open bitstream units, sequence headers and what a decoder is handed.

pub mod command;
pub mod decode;
pub mod decode_laws;
pub mod fields;
pub mod frame_laws;
pub mod obu;
pub mod obu_laws;
pub mod plan;
pub mod sequence;
pub mod sequence_laws;
pub mod status;
pub mod submit;
pub mod support;
pub mod support_laws;
pub mod skeleton;
