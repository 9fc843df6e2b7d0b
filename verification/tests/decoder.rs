use ogg::writing::{PacketWriteEndInfo, PacketWriter};
use rust_music_player::audio::decoder::{
    eq_ignore_ascii_case, fallback_chain, samples_to_skip, Backend, OutsideDecoders, Pull,
};
use rust_music_player::audio::decoders::alac::AlacStreamInfo;
use rust_music_player::audio::decoders::vorbis::VorbisIdent;
use rust_music_player::audio::decoders::ffmpeg::FfmpegStreamInfo;
use rust_music_player::audio::sample::Sample;
use rust_music_player::audio::source::{OpenError, Source, StreamProperties};
use rust_music_player::audio::{
    load_audio_file, AlacDecoder, AudioDecoder, FFmpegDecoder, RodioDecoder, SkipDuration,
    VorbisDecoder,
};
use std::time::Duration;

fn stream(channels: u16, sample_rate: u32) -> StreamProperties {
    StreamProperties { channels, sample_rate, frame_len: None, total_duration: None }
}

fn generic_decoder() -> RodioDecoder {
    RodioDecoder::load(StreamProperties {
        channels: 2,
        sample_rate: 44_100,
        frame_len: Some(1152),
        total_duration: Some(Duration::from_secs(3)),
    })
    .unwrap()
}

fn ffmpeg_decoder() -> FFmpegDecoder {
    FFmpegDecoder::load(FfmpegStreamInfo { channels: 6, sample_rate: 48_000, stream_index: 1 })
        .unwrap()
}

fn alac_decoder() -> AlacDecoder {
    let info = AlacStreamInfo { channels: 1, sample_rate: 96_000, frames_per_packet: 4096, bit_depth: 24 };
    AlacDecoder::load(info).ok().unwrap()
}

fn vorbis_decoder() -> VorbisDecoder {
    VorbisDecoder::load(VorbisIdent { channels: 2, sample_rate: 32_000 }).ok().unwrap()
}

/// What the caller could open, where the ALAC and Vorbis codecs took nothing.
fn outside(generic: Option<RodioDecoder>, ffmpeg: Option<FFmpegDecoder>) -> OutsideDecoders {
    OutsideDecoders { alac: None, vorbis: None, generic, ffmpeg }
}

/// Everything opened.
fn all_opened() -> OutsideDecoders {
    OutsideDecoders {
        alac: Some(alac_decoder()),
        vorbis: Some(vorbis_decoder()),
        generic: Some(generic_decoder()),
        ffmpeg: Some(ffmpeg_decoder()),
    }
}

fn ogg_file(packets: &[&[u8]]) -> Vec<u8> {
    let mut writer = PacketWriter::new(Vec::new());
    for (i, packet) in packets.iter().enumerate() {
        let end = if i + 1 == packets.len() {
            PacketWriteEndInfo::EndStream
        } else {
            PacketWriteEndInfo::EndPage
        };
        writer
            .write_packet(packet.to_vec().into_boxed_slice(), 7, end, i as u64)
            .unwrap();
    }
    writer.into_inner()
}

fn counted(len: i16) -> RodioDecoder {
    let mut upstream = RodioDecoder::load(stream(2, 1000)).unwrap();
    for value in 0..len {
        upstream.push(value);
    }
    upstream
}

fn scaled(value: i32) -> Sample {
    Sample::Scaled { value, divisor: 32768 }
}

#[test]
fn test_load_audio_file() {
    let nothing: Vec<u8> = Vec::new();

    // An unknown extension goes to the general-purpose decoder first.
    let decoder = load_audio_file(Some("wav"), &nothing, outside(Some(generic_decoder()), Some(ffmpeg_decoder())));
    let decoder = decoder.ok().unwrap();
    assert_eq!(decoder.backend(), Backend::Generic);
    assert_eq!(decoder.channels(), 2);
    assert_eq!(decoder.sample_rate(), 44_100);
    assert_eq!(decoder.current_frame_len(), Some(1152));
    assert_eq!(decoder.total_duration(), Some(Duration::from_secs(3)));

    // Where it does not open, the catch-all takes the file.
    let decoder = load_audio_file(Some("wav"), &nothing, outside(None, Some(ffmpeg_decoder())));
    let decoder = decoder.ok().unwrap();
    assert_eq!(decoder.backend(), Backend::Ffmpeg);
    assert_eq!(decoder.channels(), 6);
    assert_eq!(decoder.sample_rate(), 48_000);
    assert_eq!(decoder.current_frame_len(), None);
    assert_eq!(decoder.total_duration(), None);

    // Where nothing opens, the format is not supported.
    let failed = load_audio_file(Some("wav"), &nothing, outside(None, None));
    assert_eq!(failed.err(), Some(OpenError::UnsupportedFormat));
}

#[test]
fn file_without_extension_goes_to_the_general_decoder() {
    let nothing: Vec<u8> = Vec::new();
    let decoder = load_audio_file(None, &nothing, outside(Some(generic_decoder()), None));
    assert_eq!(decoder.ok().unwrap().backend(), Backend::Generic);
    let failed = load_audio_file(None, &nothing, outside(None, None));
    assert_eq!(failed.err(), Some(OpenError::UnsupportedFormat));
}

#[test]
fn opus_file_opens_as_opus() {
    let bytes = ogg_file(&[b"OpusHead", b"OpusTags", &[1, 2, 3]]);
    let decoder = load_audio_file(Some("opus"), &bytes, outside(Some(generic_decoder()), Some(ffmpeg_decoder())));
    let decoder = decoder.ok().unwrap();
    assert_eq!(decoder.backend(), Backend::Opus);
    assert_eq!(decoder.channels(), 2);
    assert_eq!(decoder.sample_rate(), 48_000);
    assert_eq!(decoder.current_frame_len(), Some(960));
    assert_eq!(decoder.total_duration(), None);
}

#[test]
fn opus_file_without_headers_falls_back_to_the_catch_all_only() {
    let bytes = ogg_file(&[b"OpusHead"]);
    // The general-purpose decoder is not in the chain of `.opus`.
    let decoder = load_audio_file(Some("opus"), &bytes, outside(Some(generic_decoder()), Some(ffmpeg_decoder())));
    assert_eq!(decoder.ok().unwrap().backend(), Backend::Ffmpeg);
    let failed = load_audio_file(Some("opus"), &bytes, outside(Some(generic_decoder()), None));
    assert_eq!(failed.err(), Some(OpenError::UnsupportedFormat));
}

#[test]
fn ogg_file_that_is_not_vorbis_falls_back_to_the_catch_all_only() {
    let bytes = ogg_file(&[b"OpusHead", b"OpusTags", &[1, 2, 3]]);
    let decoder = load_audio_file(Some("ogg"), &bytes, outside(Some(generic_decoder()), Some(ffmpeg_decoder())));
    assert_eq!(decoder.ok().unwrap().backend(), Backend::Ffmpeg);
    let failed = load_audio_file(Some("ogg"), &bytes, outside(Some(generic_decoder()), None));
    assert_eq!(failed.err(), Some(OpenError::UnsupportedFormat));
}

#[test]
fn m4a_file_walks_its_whole_chain() {
    // Not ALAC, but an Ogg stream with two packets: Opus takes it.
    let ogg = ogg_file(&[b"OpusHead", b"OpusTags"]);
    let decoder = load_audio_file(Some("m4a"), &ogg, outside(Some(generic_decoder()), Some(ffmpeg_decoder())));
    assert_eq!(decoder.ok().unwrap().backend(), Backend::Opus);

    // Neither ALAC nor Ogg: the general-purpose decoder, then the catch-all.
    let junk: Vec<u8> = vec![0, 0, 0, 8, 1, 2, 3, 4];
    let decoder = load_audio_file(Some("m4a"), &junk, outside(Some(generic_decoder()), Some(ffmpeg_decoder())));
    assert_eq!(decoder.ok().unwrap().backend(), Backend::Generic);
    let decoder = load_audio_file(Some("m4a"), &junk, outside(None, Some(ffmpeg_decoder())));
    assert_eq!(decoder.ok().unwrap().backend(), Backend::Ffmpeg);
    let failed = load_audio_file(Some("m4a"), &junk, outside(None, None));
    assert_eq!(failed.err(), Some(OpenError::UnsupportedFormat));
}

#[test]
fn extension_counts_without_regard_to_case() {
    let bytes = ogg_file(&[b"OpusHead", b"OpusTags"]);
    let decoder = load_audio_file(Some("OPUS"), &bytes, outside(None, None));
    assert_eq!(decoder.ok().unwrap().backend(), Backend::Opus);
    let decoder = load_audio_file(Some("M4a"), &bytes, outside(None, None));
    assert_eq!(decoder.ok().unwrap().backend(), Backend::Opus);
}

#[test]
fn fallback_chains_by_extension() {
    assert_eq!(fallback_chain(Some("opus")), vec![Backend::Opus, Backend::Ffmpeg]);
    assert_eq!(fallback_chain(Some("ogg")), vec![Backend::Vorbis, Backend::Ffmpeg]);
    assert_eq!(
        fallback_chain(Some("m4a")),
        vec![Backend::Alac, Backend::Opus, Backend::Generic, Backend::Ffmpeg]
    );
    assert_eq!(fallback_chain(Some("mp3")), vec![Backend::Generic, Backend::Ffmpeg]);
    assert_eq!(fallback_chain(Some("flac")), vec![Backend::Generic, Backend::Ffmpeg]);
    assert_eq!(fallback_chain(Some("")), vec![Backend::Generic, Backend::Ffmpeg]);
    assert_eq!(fallback_chain(None), vec![Backend::Generic, Backend::Ffmpeg]);
    assert_eq!(fallback_chain(Some("OGG")), vec![Backend::Vorbis, Backend::Ffmpeg]);
    assert_eq!(fallback_chain(Some("Opus")), vec![Backend::Opus, Backend::Ffmpeg]);
    assert_eq!(fallback_chain(Some("opus ")), vec![Backend::Generic, Backend::Ffmpeg]);
    assert_eq!(fallback_chain(Some("ogga")), vec![Backend::Generic, Backend::Ffmpeg]);
}

#[test]
fn ascii_case_is_ignored_and_nothing_else() {
    assert!(eq_ignore_ascii_case("M4A", "m4a"));
    assert!(eq_ignore_ascii_case("m4a", "m4a"));
    assert!(eq_ignore_ascii_case("", ""));
    assert!(!eq_ignore_ascii_case("m4", "m4a"));
    assert!(!eq_ignore_ascii_case("m4b", "m4a"));
    // '@' is 32 below '`', but it is no capital.
    assert!(!eq_ignore_ascii_case("@", "`"));
    assert!(!eq_ignore_ascii_case("[", "{"));
    // The Kelvin sign is no ASCII capital.
    assert!(!eq_ignore_ascii_case("\u{212A}", "k"));
}

#[test]
fn skip_adapter_starts_at_the_sample_after_the_skipped_ones() {
    // Ten samples upstream, three to skip: the fourth comes first.
    let mut skipping = SkipDuration::with_samples(counted(10), 3);
    assert_eq!(skipping.next(), Some(scaled(3)));
    assert_eq!(skipping.next(), Some(scaled(4)));
    let mut rest = Vec::new();
    while let Some(sample) = skipping.next() {
        rest.push(sample);
    }
    assert_eq!(rest, vec![scaled(5), scaled(6), scaled(7), scaled(8), scaled(9)]);
    assert_eq!(skipping.next(), None);
}

#[test]
fn skip_adapter_over_a_short_upstream_is_empty() {
    let mut skipping = SkipDuration::with_samples(counted(10), 10);
    assert_eq!(skipping.next(), None);
    let mut skipping = SkipDuration::with_samples(counted(10), 11);
    assert_eq!(skipping.next(), None);
    let mut skipping = SkipDuration::with_samples(counted(0), 1);
    assert_eq!(skipping.next(), None);
    let mut skipping = SkipDuration::with_samples(counted(3), usize::MAX);
    assert_eq!(skipping.next(), None);
}

#[test]
fn skip_adapter_without_anything_to_skip_is_the_upstream() {
    let mut skipping = SkipDuration::with_samples(counted(2), 0);
    assert_eq!(skipping.next(), Some(scaled(0)));
    assert_eq!(skipping.next(), Some(scaled(1)));
    assert_eq!(skipping.next(), None);
}

#[test]
fn skip_adapter_counts_samples_by_duration_rate_and_channels() {
    // 3 ms at 1000 Hz in 2 channels are 6 samples.
    let mut skipping = SkipDuration::new(counted(10), Duration::from_millis(3));
    assert_eq!(skipping.next(), Some(scaled(6)));
    // Half a frame does not count.
    let mut skipping = SkipDuration::new(counted(10), Duration::from_micros(3_999));
    assert_eq!(skipping.next(), Some(scaled(6)));
    let mut skipping = SkipDuration::new(counted(10), Duration::from_millis(5));
    assert_eq!(skipping.next(), None);
}

#[test]
fn skip_adapter_passes_the_properties_through() {
    let skipping = SkipDuration::new(generic_decoder(), Duration::from_secs(1));
    assert_eq!(skipping.channels(), 2);
    assert_eq!(skipping.sample_rate(), 44_100);
    assert_eq!(skipping.current_frame_len(), Some(1152));
    assert_eq!(skipping.total_duration(), Some(Duration::from_secs(3)));
    let upstream = skipping.into_inner();
    assert_eq!(upstream.channels(), 2);
}

#[test]
fn audio_decoder_skips_by_duration() {
    let mut upstream = generic_decoder();
    for value in 0..200 {
        upstream.push(value);
    }
    // 1 ms at 44100 Hz are 44 whole frames, in 2 channels 88 samples.
    let mut skipping = AudioDecoder::RodioDecoder(upstream).skip_duration(Duration::from_millis(1));
    assert_eq!(skipping.next(), Some(scaled(88)));
    assert_eq!(skipping.channels(), 2);
}

#[test]
fn samples_to_skip_is_whole_frames_times_channels() {
    assert_eq!(samples_to_skip(1_500_000_000, 44_100, 2), 132_300);
    assert_eq!(samples_to_skip(1_000_000_000, 48_000, 1), 48_000);
    assert_eq!(samples_to_skip(999_999_999, 1, 2), 0);
    assert_eq!(samples_to_skip(1_000_000_000, 1, 2), 2);
    assert_eq!(samples_to_skip(0, 44_100, 2), 0);
    assert_eq!(samples_to_skip(5_000_000_000, 44_100, 0), 0);
    assert_eq!(samples_to_skip(5_000_000_000, 0, 2), 0);
    // 10.25 s of 3 Hz hold 30 whole frames.
    assert_eq!(samples_to_skip(10_250_000_000, 3, 5), 150);
}

#[test]
fn samples_to_skip_saturates() {
    assert_eq!(samples_to_skip(u128::MAX, u32::MAX, u16::MAX), usize::MAX);
    assert_eq!(samples_to_skip(u128::MAX, 1, 1), usize::MAX);
    assert_eq!(samples_to_skip(u128::MAX, 2, 0), 0);
}

#[test]
fn skip_adapter_pulls_one_upstream_sample_at_a_time() {
    let mut skipping = SkipDuration::with_samples(counted(3), 2);
    assert_eq!(skipping.pull(), Pull::Skipped);
    assert_eq!(skipping.pull(), Pull::Skipped);
    assert_eq!(skipping.pull(), Pull::Sample(scaled(2)));
    assert_eq!(skipping.pull(), Pull::Empty);
    assert_eq!(skipping.pull(), Pull::Empty);
}

#[test]
fn skip_adapter_over_a_fed_upstream_is_fed_between_pulls() {
    let bytes = ogg_file(&[b"OpusHead", b"OpusTags", &[1], &[2], &[3]]);
    let decoder = load_audio_file(Some("opus"), &bytes, outside(None, None)).ok().unwrap();
    let mut skipping = SkipDuration::with_samples(decoder, 3);
    let mut out = Vec::new();
    loop {
        match skipping.pull() {
            Pull::Sample(sample) => out.push(sample),
            Pull::Skipped => {}
            Pull::Empty => {
                // A stand-in for the codec: every packet decodes to one
                // sample in each channel, made from its first byte.
                let fed = match skipping.upstream_mut() {
                    AudioDecoder::Opus(state) => match state.next_packet() {
                        Some(packet) => {
                            let value = packet[0] as u32 * 10;
                            state.push_decoded(&[value, value + 1, 0, 0], 1);
                            true
                        }
                        None => false,
                    },
                    _ => false,
                };
                if !fed {
                    break;
                }
            }
        }
    }
    // Of 10, 11, 20, 21, 30, 31 the first three are dropped.
    assert_eq!(
        out,
        vec![
            Sample::Float { bits: 21 },
            Sample::Float { bits: 30 },
            Sample::Float { bits: 31 }
        ]
    );
    assert_eq!(skipping.into_inner().backend(), Backend::Opus);
}

#[test]
fn ogg_file_opens_as_vorbis_where_the_codec_took_it() {
    let nothing: Vec<u8> = Vec::new();
    let decoder = load_audio_file(Some("ogg"), &nothing, all_opened()).ok().unwrap();
    assert_eq!(decoder.backend(), Backend::Vorbis);
    assert_eq!(decoder.channels(), 2);
    assert_eq!(decoder.sample_rate(), 32_000);
    assert_eq!(decoder.current_frame_len(), None);
    assert_eq!(decoder.total_duration(), None);
    // Opus is not in the chain of `.ogg`, whatever the bytes are.
    let opus = ogg_file(&[b"OpusHead", b"OpusTags"]);
    let none = load_audio_file(Some("ogg"), &opus, OutsideDecoders::none());
    assert_eq!(none.err(), Some(OpenError::UnsupportedFormat));
}

#[test]
fn m4a_file_opens_as_alac_where_the_codec_took_it() {
    let opus = ogg_file(&[b"OpusHead", b"OpusTags"]);
    let decoder = load_audio_file(Some("m4a"), &opus, all_opened()).ok().unwrap();
    assert_eq!(decoder.backend(), Backend::Alac);
    assert_eq!(decoder.channels(), 1);
    assert_eq!(decoder.sample_rate(), 96_000);
    assert_eq!(decoder.current_frame_len(), None);
    assert_eq!(decoder.total_duration(), None);
}

#[test]
fn decoders_that_are_not_in_the_chain_are_not_taken() {
    let nothing: Vec<u8> = Vec::new();
    let only_alac = OutsideDecoders { alac: Some(alac_decoder()), vorbis: None, generic: None, ffmpeg: None };
    assert_eq!(load_audio_file(Some("ogg"), &nothing, only_alac).err(), Some(OpenError::UnsupportedFormat));
    let only_vorbis = OutsideDecoders { alac: None, vorbis: Some(vorbis_decoder()), generic: None, ffmpeg: None };
    assert_eq!(load_audio_file(Some("m4a"), &nothing, only_vorbis).err(), Some(OpenError::UnsupportedFormat));
    let only_vorbis = OutsideDecoders { alac: None, vorbis: Some(vorbis_decoder()), generic: None, ffmpeg: None };
    assert_eq!(load_audio_file(Some("wav"), &nothing, only_vorbis).err(), Some(OpenError::UnsupportedFormat));
    let everything = all_opened();
    assert_eq!(load_audio_file(Some("opus"), &nothing, everything).ok().unwrap().backend(), Backend::Ffmpeg);
    assert_eq!(load_audio_file(Some("mp3"), &nothing, all_opened()).ok().unwrap().backend(), Backend::Generic);
}

#[test]
fn opus_file_whose_leading_packets_are_no_headers_is_not_opus() {
    let swapped = ogg_file(&[b"OpusTags", b"OpusHead", &[1]]);
    let decoder = load_audio_file(Some("opus"), &swapped, outside(None, Some(ffmpeg_decoder())));
    assert_eq!(decoder.ok().unwrap().backend(), Backend::Ffmpeg);
    let vorbis_like = ogg_file(&[b"\x01vorbis", b"\x03vorbis"]);
    let failed = load_audio_file(Some("opus"), &vorbis_like, OutsideDecoders::none());
    assert_eq!(failed.err(), Some(OpenError::UnsupportedFormat));
}

#[test]
fn skip_adapter_has_dropped_what_it_skipped_after_the_first_pull() {
    let mut skipping = SkipDuration::with_samples(counted(10), 3);
    assert_eq!(skipping.next(), Some(scaled(3)));
    // Four samples are gone from the upstream: three dropped, one handed out.
    let mut upstream = skipping.into_inner();
    assert_eq!(upstream.next(), Some(scaled(4)));
}

#[test]
fn skip_adapter_stays_empty_after_its_end() {
    let mut skipping = SkipDuration::with_samples(counted(4), 9);
    assert_eq!(skipping.next(), None);
    assert_eq!(skipping.next(), None);
    assert_eq!(skipping.next(), None);
    let mut upstream = skipping.into_inner();
    assert_eq!(upstream.next(), None);
}
