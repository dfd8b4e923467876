pub mod clock;
pub mod media_core;
pub mod media_ffmpeg;
pub mod media_linux;
pub mod media_policy;
pub mod media_sw;
pub mod protocol;
pub mod text;
