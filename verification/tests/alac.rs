use rust_music_player::audio::decoders::alac::{AlacStreamInfo, NormalizationProfile};
use rust_music_player::audio::sample::Sample;
use rust_music_player::audio::source::{OpenError, Source};
use rust_music_player::audio::AlacDecoder;
use std::io::Cursor;

fn over(value: i32, divisor: u32) -> Sample {
    Sample::Scaled { value, divisor }
}

#[test]
fn first_packet_of_small_samples_is_divided_by_32768_without_shift() {
    let first = [100, -50, 0, 7];
    let (profile, samples) = AlacDecoder::normalize_packet(None, &first);
    assert_eq!(profile, NormalizationProfile::Pcm16);
    assert_eq!(profile.shift(), 0);
    assert_eq!(profile.divisor(), 32768);
    assert_eq!(
        samples,
        vec![over(100, 32768), over(-50, 32768), over(0, 32768), over(7, 32768)]
    );
}

#[test]
fn first_packet_of_medium_samples_is_shifted_by_8_and_divided_by_8388608() {
    let first = [5_000_000, -256, 255, -1];
    let (profile, samples) = AlacDecoder::normalize_packet(None, &first);
    assert_eq!(profile, NormalizationProfile::Pcm24);
    assert_eq!(profile.shift(), 8);
    assert_eq!(profile.divisor(), 8_388_608);
    // 5000000 >> 8 = 19531; -256 >> 8 = -1; 255 >> 8 = 0; -1 >> 8 = -1.
    assert_eq!(
        samples,
        vec![over(19_531, 8_388_608), over(-1, 8_388_608), over(0, 8_388_608), over(-1, 8_388_608)]
    );
}

#[test]
fn profile_of_the_first_packet_holds_for_later_packets() {
    let (profile, _) = AlacDecoder::normalize_packet(None, &[5_000_000, 1]);
    // Alone, this packet would decide the 16-bit profile.
    let later = [100, -512];
    assert_eq!(AlacDecoder::determine_normalization(&later), NormalizationProfile::Pcm16);
    let (still, samples) = AlacDecoder::normalize_packet(Some(profile), &later);
    assert_eq!(still, NormalizationProfile::Pcm24);
    assert_eq!(samples, vec![over(0, 8_388_608), over(-2, 8_388_608)]);
}

#[test]
fn later_packet_beyond_full_scale_is_held_within_it() {
    let (profile, _) = AlacDecoder::normalize_packet(None, &[100]);
    assert_eq!(profile, NormalizationProfile::Pcm16);
    let (_, samples) = AlacDecoder::normalize_packet(Some(profile), &[40_000, -40_000, 32_768, -32_768, 32_767]);
    assert_eq!(
        samples,
        vec![
            over(32_768, 32_768),
            over(-32_768, 32_768),
            over(32_768, 32_768),
            over(-32_768, 32_768),
            over(32_767, 32_768)
        ]
    );
}

#[test]
fn profile_thresholds() {
    assert_eq!(AlacDecoder::determine_normalization(&[]), NormalizationProfile::Pcm32);
    assert_eq!(AlacDecoder::determine_normalization(&[0, 0]), NormalizationProfile::Pcm32);
    assert_eq!(AlacDecoder::determine_normalization(&[1]), NormalizationProfile::Pcm16);
    assert_eq!(AlacDecoder::determine_normalization(&[-1]), NormalizationProfile::Pcm16);
    assert_eq!(AlacDecoder::determine_normalization(&[65_535]), NormalizationProfile::Pcm16);
    assert_eq!(AlacDecoder::determine_normalization(&[-65_535, 3]), NormalizationProfile::Pcm16);
    assert_eq!(AlacDecoder::determine_normalization(&[65_536]), NormalizationProfile::Pcm24);
    assert_eq!(AlacDecoder::determine_normalization(&[3, -65_536]), NormalizationProfile::Pcm24);
    assert_eq!(AlacDecoder::determine_normalization(&[16_777_215]), NormalizationProfile::Pcm24);
    assert_eq!(AlacDecoder::determine_normalization(&[16_777_216]), NormalizationProfile::Pcm32);
    assert_eq!(AlacDecoder::determine_normalization(&[i32::MAX]), NormalizationProfile::Pcm32);
    assert_eq!(AlacDecoder::determine_normalization(&[i32::MIN]), NormalizationProfile::Pcm32);
}

#[test]
fn wide_profile_divides_by_two_to_the_31() {
    let (profile, samples) = AlacDecoder::normalize_packet(None, &[i32::MIN, i32::MAX, 16_777_216]);
    assert_eq!(profile, NormalizationProfile::Pcm32);
    assert_eq!(profile.shift(), 0);
    assert_eq!(profile.divisor(), 2_147_483_648);
    assert_eq!(
        samples,
        vec![
            over(i32::MIN, 2_147_483_648),
            over(i32::MAX, 2_147_483_648),
            over(16_777_216, 2_147_483_648)
        ]
    );
}

#[test]
fn silence_takes_the_wide_profile() {
    let (profile, samples) = AlacDecoder::normalize_packet(None, &[0, 0, 0]);
    assert_eq!(profile, NormalizationProfile::Pcm32);
    assert_eq!(samples, vec![over(0, 2_147_483_648); 3]);
}

#[test]
fn single_samples_under_each_profile() {
    assert_eq!(AlacDecoder::normalize(NormalizationProfile::Pcm16, -32_769), over(-32_768, 32_768));
    assert_eq!(AlacDecoder::normalize(NormalizationProfile::Pcm24, i32::MIN), over(-8_388_608, 8_388_608));
    assert_eq!(AlacDecoder::normalize(NormalizationProfile::Pcm24, i32::MAX), over(8_388_607, 8_388_608));
    assert_eq!(AlacDecoder::normalize(NormalizationProfile::Pcm24, -257), over(-2, 8_388_608));
    assert_eq!(AlacDecoder::normalize(NormalizationProfile::Pcm32, -5), over(-5, 2_147_483_648));
}

fn header(channels: u8, sample_rate: u32, frames_per_packet: u32, bit_depth: u8) -> AlacStreamInfo {
    AlacStreamInfo { channels, sample_rate, frames_per_packet, bit_depth }
}

#[test]
fn alac_header_that_no_stream_can_have_is_refused() {
    assert!(AlacDecoder::load(header(2, 44_100, 4096, 16)).is_ok());
    assert!(AlacDecoder::load(header(1, 1, 0, 1)).is_ok());
    assert!(AlacDecoder::load(header(255, u32::MAX, 1, 32)).is_ok());
    // No channel.
    assert_eq!(AlacDecoder::load(header(0, 44_100, 4096, 16)).err(), Some(OpenError::MalformedHeader));
    // No sample rate.
    assert_eq!(AlacDecoder::load(header(2, 0, 4096, 16)).err(), Some(OpenError::MalformedHeader));
    // Samples of no bits, and of more than 32.
    assert_eq!(AlacDecoder::load(header(2, 44_100, 4096, 0)).err(), Some(OpenError::MalformedHeader));
    assert_eq!(AlacDecoder::load(header(2, 44_100, 4096, 33)).err(), Some(OpenError::MalformedHeader));
    // More samples to a packet than 32 bits count.
    assert_eq!(AlacDecoder::load(header(2, 44_100, u32::MAX, 16)).err(), Some(OpenError::MalformedHeader));
    assert_eq!(AlacDecoder::load(header(2, 44_100, 1 << 31, 16)).err(), Some(OpenError::MalformedHeader));
    assert!(AlacDecoder::load(header(1, 44_100, u32::MAX, 16)).is_ok());
}

#[test]
fn alac_decode_buffer_holds_a_packet_once_more_for_each_channel() {
    let decoder = AlacDecoder::load(header(2, 44_100, 4096, 16)).ok().unwrap();
    assert_eq!(decoder.packet_capacity(), 4096 * 2 * 2);
    let decoder = AlacDecoder::load(header(1, 44_100, 4, 16)).ok().unwrap();
    assert_eq!(decoder.packet_capacity(), 4);
    let decoder = AlacDecoder::load(header(3, 44_100, 0, 16)).ok().unwrap();
    assert_eq!(decoder.packet_capacity(), 0);
}

#[test]
fn alac_queue_takes_packets_under_the_profile_of_the_first() {
    let mut decoder = AlacDecoder::load(header(1, 44_100, 4, 32)).ok().unwrap();
    assert!(decoder.needs_packet());
    assert_eq!(decoder.next(), None);
    decoder.push_packet(&[5_000_000, -256]);
    assert!(!decoder.needs_packet());
    assert_eq!(decoder.next(), Some(over(19_531, 8_388_608)));
    // Alone, this packet would decide the 16-bit profile.
    decoder.push_packet(&[100]);
    assert_eq!(decoder.next(), Some(over(-1, 8_388_608)));
    assert_eq!(decoder.next(), Some(over(0, 8_388_608)));
    assert_eq!(decoder.next(), None);
    assert_eq!(decoder.next(), None);
    assert!(decoder.needs_packet());
    assert_eq!(decoder.channels(), 1);
    assert_eq!(decoder.sample_rate(), 44_100);
}

#[test]
fn alac_empty_first_packet_fixes_the_wide_profile() {
    let mut decoder = AlacDecoder::load(header(1, 44_100, 4, 32)).ok().unwrap();
    decoder.push_packet(&[]);
    assert_eq!(decoder.next(), None);
    decoder.push_packet(&[100]);
    assert_eq!(decoder.next(), Some(over(100, 2_147_483_648)));
}

struct BitWriter {
    bytes: Vec<u8>,
    used: u32,
}

fn push_bits(writer: &mut BitWriter, value: u32, bits: u32) {
    for i in (0..bits).rev() {
        if writer.used % 8 == 0 {
            writer.bytes.push(0);
        }
        let bit = ((value >> i) & 1) as u8;
        let last = writer.bytes.len() - 1;
        writer.bytes[last] |= bit << (7 - writer.used % 8);
        writer.used += 1;
    }
}

/// One packet of uncompressed samples: a single-channel element for mono, a
/// channel pair for stereo.
fn alac_packet(samples: &[i32], channels: u8, bit_depth: u32) -> Vec<u8> {
    let mut writer = BitWriter { bytes: Vec::new(), used: 0 };
    push_bits(&mut writer, if channels == 2 { 1 } else { 0 }, 3);
    push_bits(&mut writer, 0, 4);
    push_bits(&mut writer, 0, 12);
    push_bits(&mut writer, 0, 1);
    push_bits(&mut writer, 0, 2);
    push_bits(&mut writer, 1, 1);
    for sample in samples {
        push_bits(&mut writer, *sample as u32, bit_depth);
    }
    push_bits(&mut writer, 7, 3);
    writer.bytes
}

fn mp4_box(name: &[u8; 4], payload: &[u8]) -> Vec<u8> {
    let mut out = ((payload.len() + 8) as u32).to_be_bytes().to_vec();
    out.extend_from_slice(name);
    out.extend_from_slice(payload);
    out
}

fn be32(values: &[u32]) -> Vec<u8> {
    values.iter().flat_map(|value| value.to_be_bytes()).collect()
}

/// A file with one ALAC track: `frames` frames to a packet.
fn alac_file(channels: u8, bit_depth: u8, sample_rate: u32, frames: u32, packets: &[Vec<u8>]) -> Vec<u8> {
    let mut cookie = be32(&[frames]);
    cookie.extend_from_slice(&[0, bit_depth, 40, 10, 14, channels, 0, 255]);
    cookie.extend_from_slice(&be32(&[0, 0, sample_rate]));

    let mut entry = vec![0u8; 6];
    entry.extend_from_slice(&[0, 1, 0, 0]);
    entry.extend_from_slice(&[0u8; 6]);
    entry.extend_from_slice(&[0, channels, 0, bit_depth]);
    entry.extend_from_slice(&[0u8; 4]);
    entry.extend_from_slice(&be32(&[sample_rate << 16]));
    let mut inner = vec![0u8; 4];
    inner.extend_from_slice(&cookie);
    entry.extend_from_slice(&mp4_box(b"alac", &inner));

    let mut stsd = be32(&[0, 1]);
    stsd.extend_from_slice(&mp4_box(b"alac", &entry));
    let stsc = be32(&[0, 1, 1, packets.len() as u32, 1]);
    let mut stsz = be32(&[0, 0, packets.len() as u32]);
    for packet in packets {
        stsz.extend_from_slice(&be32(&[packet.len() as u32]));
    }

    let mut hdlr = be32(&[0, 0]);
    hdlr.extend_from_slice(b"soun");
    hdlr.extend_from_slice(&[0u8; 13]);

    let ftyp = mp4_box(b"ftyp", b"M4A \0\0\0\0M4A ");
    let moov_for = |offset: u32| {
        let mut stbl = mp4_box(b"stsd", &stsd);
        stbl.extend_from_slice(&mp4_box(b"stsc", &stsc));
        stbl.extend_from_slice(&mp4_box(b"stsz", &stsz));
        stbl.extend_from_slice(&mp4_box(b"stco", &be32(&[0, 1, offset])));
        let minf = mp4_box(b"minf", &mp4_box(b"stbl", &stbl));
        let mut mdia = mp4_box(b"hdlr", &hdlr);
        mdia.extend_from_slice(&minf);
        mp4_box(b"moov", &mp4_box(b"trak", &mp4_box(b"mdia", &mdia)))
    };
    let offset = (ftyp.len() + moov_for(0).len() + 8) as u32;

    let mut file = ftyp;
    file.extend_from_slice(&moov_for(offset));
    file.extend_from_slice(&mp4_box(b"mdat", &packets.concat()));
    file
}

/// Opens the file with the codec and sets up the library's decoder for it.
fn open(file: &[u8]) -> (AlacDecoder, alac::Packets<Cursor<Vec<u8>>, i32>) {
    let reader = alac::Reader::new(Cursor::new(file.to_vec())).unwrap();
    let info = reader.stream_info();
    let info = header(
        info.channels(),
        info.sample_rate(),
        info.max_frames_per_packet(),
        info.bit_depth(),
    );
    (AlacDecoder::load(info).ok().unwrap(), reader.into_packets())
}

/// Pulls the decoder dry, decoding a packet whenever its queue is empty.
fn drain(decoder: &mut AlacDecoder, packets: &mut alac::Packets<Cursor<Vec<u8>>, i32>) -> Vec<Sample> {
    let mut all = Vec::new();
    loop {
        while let Some(sample) = decoder.next() {
            all.push(sample);
        }
        let mut out = vec![0i32; decoder.packet_capacity()];
        match packets.next_into(&mut out) {
            Ok(Some(decoded)) => decoder.push_packet(decoded),
            _ => return all,
        }
    }
}

#[test]
fn alac_file_is_decoded_packet_by_packet_under_the_profile_of_the_first() {
    // 16-bit samples come out of the codec in the upper half of 32 bits, so
    // the first packet needs 23 bits and decides the 24-bit profile.
    let first = alac_packet(&[100, -50, 0, 7], 1, 16);
    let silent = alac_packet(&[0, 0, 0, 0], 1, 16);
    let last = alac_packet(&[-32_768, 32_767, 1, -1], 1, 16);
    let file = alac_file(1, 16, 44_100, 4, &[first, silent, last]);

    let (mut decoder, mut packets) = open(&file);
    assert_eq!(decoder.channels(), 1);
    assert_eq!(decoder.sample_rate(), 44_100);
    assert_eq!(decoder.current_frame_len(), None);
    assert_eq!(decoder.total_duration(), None);

    let full = 8_388_608;
    assert_eq!(
        drain(&mut decoder, &mut packets),
        vec![
            over(100 * 256, full),
            over(-50 * 256, full),
            over(0, full),
            over(7 * 256, full),
            // Silence alone would decide the 32-bit profile.
            over(0, full),
            over(0, full),
            over(0, full),
            over(0, full),
            over(-32_768 * 256, full),
            over(32_767 * 256, full),
            over(256, full),
            over(-256, full),
        ]
    );
    assert_eq!(decoder.next(), None);
}

#[test]
fn alac_stereo_file_keeps_its_channels_interleaved() {
    // 32-bit samples come out as they are: the first packet is small and
    // decides the 16-bit profile, which then holds the second within scale.
    let first = alac_packet(&[100, -100, 5, 6], 2, 32);
    let second = alac_packet(&[70_000, -70_000, 1, 2], 2, 32);
    let file = alac_file(2, 32, 48_000, 2, &[first, second]);

    let (mut decoder, mut packets) = open(&file);
    assert_eq!(decoder.channels(), 2);
    assert_eq!(decoder.sample_rate(), 48_000);
    assert_eq!(
        drain(&mut decoder, &mut packets),
        vec![
            over(100, 32_768),
            over(-100, 32_768),
            over(5, 32_768),
            over(6, 32_768),
            over(32_768, 32_768),
            over(-32_768, 32_768),
            over(1, 32_768),
            over(2, 32_768),
        ]
    );
}

#[test]
fn alac_file_decodes_the_same_twice() {
    let packets = [alac_packet(&[9, 8, 7, 6], 1, 16), alac_packet(&[5, 4, 3, 2], 1, 16)];
    let file = alac_file(1, 16, 8_000, 4, &packets);
    let (mut one, mut packets_of_one) = open(&file);
    let (mut other, mut packets_of_other) = open(&file);
    let samples = drain(&mut one, &mut packets_of_one);
    assert_eq!(samples.len(), 8);
    assert_eq!(samples, drain(&mut other, &mut packets_of_other));
}
