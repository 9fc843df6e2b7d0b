//! One decoder for each kind of file.

pub mod alac;
pub mod ffmpeg;
pub mod opus;
pub mod rodio;
pub mod vorbis;

pub use alac::AlacDecoder;
pub use ffmpeg::FFmpegDecoder;
pub use opus::DecoderOpus;
pub use rodio::RodioDecoder;
pub use vorbis::VorbisDecoder;
