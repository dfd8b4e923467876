//! Software H.264 encode and decode through OpenH264.

pub mod decoder;
pub mod encoder;
pub mod error;
pub mod nv12;
pub mod traits;
