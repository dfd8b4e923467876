//! HEVC through FFmpeg. The library's calls are made elsewhere; here it is decided
//! which call comes next, what its answer means and what the caller gets.

pub mod error;
pub mod options;
pub mod setup;
pub mod setup_laws;
pub mod encoding;
pub mod planes;
pub mod hdr10_sei;
pub mod encoder_core;
pub mod hevc_vaapi_encoder;
pub mod hevc_vaapi_main10_encoder;
pub mod hevc_nvenc_encoder;
pub mod hevc_nvenc_npp_encoder;
pub mod probe;
pub mod core_adapter;
pub mod decoder_common;
pub mod hevc_sw_decoder;
pub mod hevc_sw_main10_decoder;
pub mod hevc_nvdec_decoder;
pub mod hevc_vaapi_main10_decoder;
