//! Decoders, the playback transport and the progress display.

pub mod decoder;
pub mod decoders;
pub mod display;
pub mod player;
pub mod sample;
pub mod source;
pub mod utils;

pub use decoder::{load_audio_file, AudioDecoder, SkipDuration};
pub use decoders::{AlacDecoder, DecoderOpus, FFmpegDecoder, RodioDecoder, VorbisDecoder};
pub use player::AudioPlayer;
pub use utils::{TimeFormat, TimeUtils};
