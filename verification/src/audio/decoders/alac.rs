//! Apple Lossless.
//!
//! The stream does not say how many bits its samples use, so the decoder
//! looks at the first packet: the largest magnitude in it decides by what the
//! samples are divided, for that packet and for every packet after it.
//!
//! Container and codec run outside. The caller opens the file and hands the
//! header to [`AlacDecoder::load`]; whenever the queue is empty it decodes
//! the next packet into a buffer of [`AlacDecoder::packet_capacity`] integers
//! and hands what was decoded to [`AlacDecoder::push_packet`].

use crate::numeric::clamp;
use crate::audio::sample::{
    all_within_unit, enqueue, Sample, I16_FULL_SCALE, I24_FULL_SCALE, I32_FULL_SCALE,
};
use crate::audio::source::{OpenError, Source, StreamProperties};
use std::collections::VecDeque;
use std::time::Duration;
use vstd::arithmetic::power2::{lemma2_to64, lemma_pow2_pos, lemma_pow2_unfold, pow2};
use vstd::prelude::*;

verus! {

/// Samples that the pending queue holds room for from the start.
pub const INITIAL_BUFFER_CAPACITY: usize = 4096;

/// How the integers of one stream become samples: shifted right by `shift()`
/// bits, then divided by `divisor()`.
#[derive(Clone, Copy, Debug, PartialEq, Eq, Structural)]
pub enum NormalizationProfile {
    /// Samples of at most 16 bits.
    Pcm16,
    /// Samples of 17 to 24 bits.
    Pcm24,
    /// Samples of more than 24 bits.
    Pcm32,
}

impl NormalizationProfile {
    pub open spec fn spec_shift(self) -> u32 {
        match self {
            NormalizationProfile::Pcm24 => 8,
            _ => 0,
        }
    }

    pub open spec fn spec_divisor(self) -> u32 {
        match self {
            NormalizationProfile::Pcm16 => I16_FULL_SCALE,
            NormalizationProfile::Pcm24 => I24_FULL_SCALE,
            NormalizationProfile::Pcm32 => I32_FULL_SCALE,
        }
    }

    /// Bits by which each sample is shifted right before the division.
    #[verifier::when_used_as_spec(spec_shift)]
    pub fn shift(self) -> (shift: u32)
        ensures
            shift == self.spec_shift(),
    {
        match self {
            NormalizationProfile::Pcm24 => 8,
            _ => 0,
        }
    }

    /// The full-scale value by which each sample is divided.
    #[verifier::when_used_as_spec(spec_divisor)]
    pub fn divisor(self) -> (divisor: u32)
        ensures
            divisor == self.spec_divisor(),
    {
        match self {
            NormalizationProfile::Pcm16 => I16_FULL_SCALE,
            NormalizationProfile::Pcm24 => I24_FULL_SCALE,
            NormalizationProfile::Pcm32 => I32_FULL_SCALE,
        }
    }
}

/// The absolute value of `x`.
pub open spec fn magnitude(x: i32) -> nat {
    if x < 0 {
        (-x) as nat
    } else {
        x as nat
    }
}

/// The largest magnitude among `samples`; zero where there are none.
pub open spec fn max_abs(samples: Seq<i32>) -> nat
    decreases samples.len(),
{
    if samples.len() == 0 {
        0
    } else {
        let before = max_abs(samples.drop_last());
        let last = magnitude(samples.last());
        if last > before {
            last
        } else {
            before
        }
    }
}

/// The number of bits that it takes to write `n`: 32 less the leading zeros
/// of `n` as a 32-bit number.
pub open spec fn bits_needed(n: nat) -> nat
    decreases n,
{
    if n == 0 {
        0
    } else {
        1 + bits_needed(n / 2)
    }
}

/// The profile for a stream whose first packet has the largest magnitude
/// `largest`. Silence says nothing of the width, and is taken as 32 bits.
pub open spec fn profile_for_magnitude(largest: nat) -> NormalizationProfile {
    if largest == 0 {
        NormalizationProfile::Pcm32
    } else if bits_needed(largest) <= 16 {
        NormalizationProfile::Pcm16
    } else if bits_needed(largest) <= 24 {
        NormalizationProfile::Pcm24
    } else {
        NormalizationProfile::Pcm32
    }
}

/// The profile that a first packet decides.
pub open spec fn profile_for(packet: Seq<i32>) -> NormalizationProfile {
    profile_for_magnitude(max_abs(packet))
}

/// One integer of the stream as a sample under `profile`: shifted, then held
/// within full scale.
pub open spec fn normalized(profile: NormalizationProfile, sample: i32) -> Sample {
    let shifted = if profile.spec_shift() > 0 {
        sample as int / pow2(profile.spec_shift() as nat) as int
    } else {
        sample as int
    };
    let full = profile.spec_divisor() as int;
    Sample::Scaled { value: clamp(shifted, -full, full) as i32, divisor: profile.spec_divisor() }
}

/// A packet as samples under `profile`.
pub open spec fn normalized_packet(profile: NormalizationProfile, packet: Seq<i32>) -> Seq<
    Sample,
> {
    Seq::new(packet.len(), |i: int| normalized(profile, packet[i]))
}

/// The profile in force for `packet`: the one fixed earlier, or the one that
/// `packet` decides as the first of its stream.
pub open spec fn profile_in_force(
    fixed: Option<NormalizationProfile>,
    packet: Seq<i32>,
) -> NormalizationProfile {
    match fixed {
        Some(profile) => profile,
        None => profile_for(packet),
    }
}

/// The samples of `packets` in order, where `fixed` is the profile that an
/// earlier packet decided, if any did.
pub open spec fn normalized_stream(
    fixed: Option<NormalizationProfile>,
    packets: Seq<Seq<i32>>,
) -> Seq<Sample>
    decreases packets.len(),
{
    if packets.len() == 0 {
        Seq::empty()
    } else {
        let profile = profile_in_force(fixed, packets[0]);
        normalized_packet(profile, packets[0]) + normalized_stream(Some(profile), packets.skip(1))
    }
}

/// A number takes at most `k` bits exactly when it is below `2^k`.
pub proof fn lemma_bits_needed(n: nat, k: nat)
    ensures
        bits_needed(n) <= k <==> n < pow2(k),
    decreases k,
{
    lemma_pow2_pos(k);
    if k == 0 {
        lemma2_to64();
    } else if n > 0 {
        lemma_bits_needed(n / 2, (k - 1) as nat);
        lemma_pow2_unfold(k);
    }
}

/// The profile by thresholds: up to 65535 is 16-bit, up to 16777215 is
/// 24-bit, silence and everything larger is 32-bit.
pub proof fn lemma_profile_thresholds(largest: nat)
    ensures
        profile_for_magnitude(largest) == if largest == 0 {
            NormalizationProfile::Pcm32
        } else if largest < 65536 {
            NormalizationProfile::Pcm16
        } else if largest < 16777216 {
            NormalizationProfile::Pcm24
        } else {
            NormalizationProfile::Pcm32
        },
{
    lemma_bits_needed(largest, 16);
    lemma_bits_needed(largest, 24);
    lemma2_to64();
}

/// Every sample that a profile produces lies in `[-1, 1]`.
pub proof fn lemma_normalized_within_unit(profile: NormalizationProfile, sample: i32)
    ensures
        normalized(profile, sample).within_unit(),
{
}

/// A profile, once fixed, holds for every later packet, whatever that packet
/// alone would have decided.
pub proof fn lemma_profile_stays(
    first: Seq<i32>,
    later: Seq<i32>,
)
    ensures
        normalized_stream(None, seq![first, later]) == normalized_packet(profile_for(first), first)
            + normalized_packet(profile_for(first), later),
{
    let packets = seq![first, later];
    let profile = profile_for(first);
    assert(packets.skip(1) =~= seq![later]);
    assert(seq![later].skip(1) =~= Seq::<Seq<i32>>::empty());
    reveal_with_fuel(normalized_stream, 3);
    assert(normalized_stream(Some(profile), seq![later]) =~= normalized_packet(profile, later));
}

/// What the header of an ALAC stream says of it.
#[derive(Clone, Copy, Debug, PartialEq, Eq, Structural)]
pub struct AlacStreamInfo {
    /// Number of channels.
    pub channels: u8,
    /// Samples per second and channel.
    pub sample_rate: u32,
    /// The most frames that one packet holds.
    pub frames_per_packet: u32,
    /// Bits per sample as encoded.
    pub bit_depth: u8,
}

impl AlacStreamInfo {
    /// The most samples that one packet holds, all channels together.
    pub open spec fn samples_per_packet(self) -> nat {
        (self.frames_per_packet * self.channels) as nat
    }

    /// The length of the buffer that one packet is decoded into.
    pub open spec fn packet_capacity(self) -> nat {
        self.samples_per_packet() * self.channels as nat
    }

    /// Whether a stream with this header can be decoded: it has a channel and
    /// a sample rate, its samples have between 1 and 32 bits, and the sizes
    /// that follow from it can be written down.
    pub open spec fn usable(self) -> bool {
        &&& self.channels >= 1
        &&& self.sample_rate > 0
        &&& 1 <= self.bit_depth <= 32
        &&& self.samples_per_packet() <= u32::MAX
        &&& self.packet_capacity() <= usize::MAX
    }

    /// The properties that the decoder reports for this header.
    pub open spec fn properties(self) -> StreamProperties {
        StreamProperties {
            channels: self.channels as u16,
            sample_rate: self.sample_rate,
            frame_len: None,
            total_duration: None,
        }
    }
}

/// The library's half of the ALAC decoder.
pub struct AlacDecoder {
    buffer: VecDeque<Sample>,
    config: AlacStreamInfo,
    capacity: usize,
    profile: Option<NormalizationProfile>,
}

impl AlacDecoder {
    /// The profile that the first packet fixed; `None` before any packet.
    pub closed spec fn fixed_profile(&self) -> Option<NormalizationProfile> {
        self.profile
    }

    /// The samples decoded and not yet handed out.
    pub closed spec fn buffered(&self) -> Seq<Sample> {
        self.buffer@
    }

    /// The header of the stream.
    pub closed spec fn stream_info(&self) -> AlacStreamInfo {
        self.config
    }

    /// The length of the decode buffer as the decoder holds it.
    pub closed spec fn held_capacity(&self) -> nat {
        self.capacity as nat
    }

    /// Whether this is the decoder that `load` makes of `info`: nothing
    /// buffered, no profile fixed.
    pub open spec fn opened_from(&self, info: AlacStreamInfo) -> bool {
        &&& self.stream_info() == info
        &&& self.buffered() == Seq::<Sample>::empty()
        &&& self.fixed_profile() is None
        &&& self.well_formed()
    }

    /// Sets up the decoder for a stream with the header `info`, as the caller
    /// read it on opening the file. A header that no stream can have is
    /// malformed.
    pub fn load(info: AlacStreamInfo) -> (r: Result<AlacDecoder, OpenError>)
        ensures
            match r {
                Ok(decoder) => {
                    &&& info.usable()
                    &&& decoder.opened_from(info)
                    &&& decoder.properties() == info.properties()
                    &&& decoder.properties().valid()
                },
                Err(e) => e == OpenError::MalformedHeader && !info.usable(),
            },
    {
        if info.channels == 0 || info.sample_rate == 0 || info.bit_depth == 0 || info.bit_depth
            > 32 {
            return Err(OpenError::MalformedHeader);
        }
        assert(info.frames_per_packet * info.channels <= 0xffff_ffff * 0xff) by (nonlinear_arith)
            requires
                info.frames_per_packet <= 0xffff_ffff,
                info.channels <= 0xff,
        ;
        let per_packet: u64 = info.frames_per_packet as u64 * info.channels as u64;
        if per_packet > u32::MAX as u64 {
            return Err(OpenError::MalformedHeader);
        }
        assert(per_packet * info.channels <= 0xffff_ffff * 0xff) by (nonlinear_arith)
            requires
                per_packet <= 0xffff_ffff,
                info.channels <= 0xff,
        ;
        let wanted: u64 = per_packet * info.channels as u64;
        if wanted > usize::MAX as u64 {
            return Err(OpenError::MalformedHeader);
        }
        Ok(
            AlacDecoder {
                buffer: VecDeque::with_capacity(INITIAL_BUFFER_CAPACITY),
                config: info,
                capacity: wanted as usize,
                profile: None,
            },
        )
    }

    /// The length of the buffer that the caller decodes one packet into: the
    /// most samples that a packet holds, once more for each channel. The
    /// codec refuses a shorter buffer.
    pub fn packet_capacity(&self) -> (capacity: usize)
        requires
            self.well_formed(),
        ensures
            capacity == self.stream_info().packet_capacity(),
            capacity >= self.stream_info().samples_per_packet(),
    {
        assert(self.config.samples_per_packet() <= self.capacity) by (nonlinear_arith)
            requires
                self.capacity == self.config.samples_per_packet() * self.config.channels as nat,
                self.config.channels >= 1,
        ;
        self.capacity
    }

    /// Whether the queue is empty, so that a packet has to be decoded before
    /// the next sample can be had.
    pub fn needs_packet(&self) -> (needed: bool)
        ensures
            needed == (self.buffered().len() == 0),
    {
        self.buffer.len() == 0
    }

    /// Takes in one decoded packet, channels interleaved. The first packet
    /// of the stream fixes the profile; the packet joins the queue under the
    /// profile in force.
    pub fn push_packet(&mut self, decoded: &[i32])
        requires
            old(self).well_formed(),
        ensures
            final(self).well_formed(),
            final(self).stream_info() == old(self).stream_info(),
            final(self).fixed_profile() == Some(
                profile_in_force(old(self).fixed_profile(), decoded@),
            ),
            final(self).buffered() == old(self).buffered() + normalized_packet(
                profile_in_force(old(self).fixed_profile(), decoded@),
                decoded@,
            ),
    {
        let (profile, samples) = Self::normalize_packet(self.profile, decoded);
        self.profile = Some(profile);
        enqueue(&mut self.buffer, &samples);
    }

    /// Decides the profile of a stream from its first packet.
    pub fn determine_normalization(decoded: &[i32]) -> (profile: NormalizationProfile)
        ensures
            profile == profile_for(decoded@),
    {
        let mut largest: u32 = 0;
        let mut i: usize = 0;
        assert(decoded@.take(0) =~= Seq::<i32>::empty());
        while i < decoded.len()
            invariant
                i <= decoded@.len(),
                largest == max_abs(decoded@.take(i as int)),
            decreases decoded@.len() - i,
        {
            let sample = decoded[i];
            let size: u32 = if sample >= 0 {
                sample as u32
            } else {
                (-(sample as i64)) as u32
            };
            assert(decoded@.take(i + 1).drop_last() =~= decoded@.take(i as int));
            if size > largest {
                largest = size;
            }
            i = i + 1;
        }
        assert(decoded@.take(i as int) =~= decoded@);
        proof {
            lemma_profile_thresholds(largest as nat);
        }
        if largest == 0 {
            NormalizationProfile::Pcm32
        } else if largest < 65536 {
            NormalizationProfile::Pcm16
        } else if largest < 16777216 {
            NormalizationProfile::Pcm24
        } else {
            NormalizationProfile::Pcm32
        }
    }

    /// One integer of the stream as a sample under `profile`.
    pub fn normalize(profile: NormalizationProfile, sample: i32) -> (out: Sample)
        ensures
            out == normalized(profile, sample),
            out.within_unit(),
    {
        let shifted: i32 = match profile {
            NormalizationProfile::Pcm24 => {
                assert((sample >> 8u32) == sample / 256) by (bit_vector);
                proof {
                    lemma2_to64();
                }
                sample >> 8u32
            },
            _ => sample,
        };
        let divisor = profile.divisor();
        let value: i32 = if (shifted as i64) > divisor as i64 {
            divisor as i32
        } else if (shifted as i64) < -(divisor as i64) {
            -(divisor as i64) as i32
        } else {
            shifted
        };
        Sample::Scaled { value, divisor }
    }

    /// A decoded packet as samples. The first packet of a stream decides the
    /// profile (`fixed` is `None`); every later packet is given the profile
    /// that the first one decided. Returns the profile in force with the
    /// samples.
    pub fn normalize_packet(fixed: Option<NormalizationProfile>, decoded: &[i32]) -> (out: (
        NormalizationProfile,
        Vec<Sample>,
    ))
        ensures
            out.0 == profile_in_force(fixed, decoded@),
            out.1@ == normalized_packet(out.0, decoded@),
            all_within_unit(out.1@),
    {
        let profile = match fixed {
            Some(profile) => profile,
            None => Self::determine_normalization(decoded),
        };
        let mut samples: Vec<Sample> = Vec::new();
        let mut i: usize = 0;
        while i < decoded.len()
            invariant
                i <= decoded@.len(),
                samples@ == normalized_packet(profile, decoded@.take(i as int)),
            decreases decoded@.len() - i,
        {
            samples.push(Self::normalize(profile, decoded[i]));
            i = i + 1;
            assert(samples@ =~= normalized_packet(profile, decoded@.take(i as int)));
        }
        assert(decoded@.take(i as int) =~= decoded@);
        (profile, samples)
    }
}

impl Source for AlacDecoder {
    /// The queue: what has been decoded and not yet handed out.
    open spec fn remaining(&self) -> Seq<Sample> {
        self.buffered()
    }

    open spec fn properties(&self) -> StreamProperties {
        self.stream_info().properties()
    }

    /// The header is that of a stream, the decode buffer has the length that
    /// the header asks for, and every sample in the queue lies in `[-1, 1]`.
    open spec fn well_formed(&self) -> bool {
        &&& self.stream_info().usable()
        &&& self.held_capacity() == self.stream_info().packet_capacity()
        &&& all_within_unit(self.buffered())
    }

    fn next(&mut self) -> (sample: Option<Sample>)
        ensures
            sample matches Some(s) ==> s.within_unit(),
            final(self).stream_info() == old(self).stream_info(),
            final(self).fixed_profile() == old(self).fixed_profile(),
    {
        let ghost before = self.buffer@;
        let sample = self.buffer.pop_front();
        assert(before.len() > 0 ==> self.buffer@ =~= before.skip(1));
        assert(before.len() > 0 ==> before[0].within_unit());
        assert(before.len() == 0 ==> self.buffer@ =~= before);
        sample
    }

    fn current_frame_len(&self) -> (len: Option<usize>) {
        None
    }

    fn channels(&self) -> (channels: u16) {
        self.config.channels as u16
    }

    fn sample_rate(&self) -> (rate: u32) {
        self.config.sample_rate
    }

    fn total_duration(&self) -> (total: Option<Duration>) {
        None
    }
}

} // verus!
