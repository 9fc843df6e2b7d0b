//! One source for every kind of file: which decoder is tried for which file,
//! the decoder that opened behind one type, and the adapter that drops the
//! start of a stream for a seek.

use crate::audio::decoders::{AlacDecoder, DecoderOpus, FFmpegDecoder, RodioDecoder, VorbisDecoder};
use crate::audio::sample::Sample;
use crate::audio::source::{OpenError, Source, StreamProperties};
use crate::audio::utils::{duration_as_nanos, duration_nanos};
use crate::text::chars_of;
use std::time::Duration;
use vstd::prelude::*;

verus! {

/// The five decoders.
#[derive(Clone, Copy, Debug, PartialEq, Eq, Structural)]
pub enum Backend {
    /// The general-purpose decoder.
    Generic,
    Opus,
    Vorbis,
    Alac,
    /// The catch-all.
    Ffmpeg,
}

/// The code point of the lower-case form of an ASCII capital; of every
/// other character its own.
pub open spec fn ascii_lower(c: char) -> int {
    if 'A' <= c <= 'Z' {
        c as int + 32
    } else {
        c as int
    }
}

/// Whether `text` reads `lower` once its ASCII capitals are made small.
pub open spec fn equals_ignoring_case(text: Seq<char>, lower: Seq<char>) -> bool {
    &&& text.len() == lower.len()
    &&& forall|i: int| 0 <= i < text.len() ==> ascii_lower(#[trigger] text[i]) == lower[i] as int
}

/// The decoders that are tried for a file with the extension `extension`, in
/// order. The extension counts without regard to case.
pub open spec fn chain_for(extension: Option<Seq<char>>) -> Seq<Backend> {
    match extension {
        Some(ext) => if equals_ignoring_case(ext, "opus"@) {
            seq![Backend::Opus, Backend::Ffmpeg]
        } else if equals_ignoring_case(ext, "ogg"@) {
            seq![Backend::Vorbis, Backend::Ffmpeg]
        } else if equals_ignoring_case(ext, "m4a"@) {
            seq![Backend::Alac, Backend::Opus, Backend::Generic, Backend::Ffmpeg]
        } else {
            seq![Backend::Generic, Backend::Ffmpeg]
        },
        None => seq![Backend::Generic, Backend::Ffmpeg],
    }
}

/// Every chain ends with the catch-all, names it only there, and names no
/// decoder twice.
pub proof fn lemma_chain_ends_with_catch_all(extension: Option<Seq<char>>)
    ensures
        chain_for(extension).len() >= 2,
        chain_for(extension).last() == Backend::Ffmpeg,
        forall|i: int, j: int|
            0 <= i < j < chain_for(extension).len() ==> chain_for(extension)[i] != chain_for(
                extension,
            )[j],
{
}

/// The decoders whose container and codec run outside the library, each
/// where the caller could open it on the file and `None` where not.
pub struct OutsideDecoders {
    pub alac: Option<AlacDecoder>,
    pub vorbis: Option<VorbisDecoder>,
    pub generic: Option<RodioDecoder>,
    pub ffmpeg: Option<FFmpegDecoder>,
}

impl OutsideDecoders {
    /// Every decoder that is there is well-formed.
    pub open spec fn well_formed(self) -> bool {
        &&& self.alac matches Some(decoder) ==> decoder.well_formed()
        &&& self.vorbis matches Some(decoder) ==> decoder.well_formed()
        &&& self.generic matches Some(decoder) ==> decoder.well_formed()
        &&& self.ffmpeg matches Some(decoder) ==> decoder.well_formed()
    }

    /// No decoder opened.
    pub fn none() -> (outside: OutsideDecoders)
        ensures
            outside.alac is None,
            outside.vorbis is None,
            outside.generic is None,
            outside.ffmpeg is None,
    {
        OutsideDecoders { alac: None, vorbis: None, generic: None, ffmpeg: None }
    }
}

/// Whether `backend` opens the file: for Opus, whose stream the library
/// reads, whether `bytes` begin with its headers; for the others, whether
/// the caller could open them.
pub open spec fn backend_opens(backend: Backend, bytes: Seq<u8>, outside: OutsideDecoders) -> bool {
    match backend {
        Backend::Generic => outside.generic is Some,
        Backend::Opus => DecoderOpus::opens(bytes),
        Backend::Vorbis => outside.vorbis is Some,
        Backend::Alac => outside.alac is Some,
        Backend::Ffmpeg => outside.ffmpeg is Some,
    }
}

/// The first decoder of `chain` that opens the file, if any does.
pub open spec fn first_opening(chain: Seq<Backend>, bytes: Seq<u8>, outside: OutsideDecoders)
    -> Option<Backend>
    decreases chain.len(),
{
    if chain.len() == 0 {
        None
    } else if backend_opens(chain[0], bytes, outside) {
        Some(chain[0])
    } else {
        first_opening(chain.skip(1), bytes, outside)
    }
}

fn code_point(c: char) -> (code: u32)
    ensures
        code == c as int,
{
    c as u32
}

/// Whether `text` reads `lower`, a word without capitals, once its ASCII
/// capitals are made small.
pub fn eq_ignore_ascii_case(text: &str, lower: &str) -> (equal: bool)
    ensures
        equal == equals_ignoring_case(text@, lower@),
{
    let a = chars_of(text);
    let b = chars_of(lower);
    if a.len() != b.len() {
        return false;
    }
    let mut i: usize = 0;
    while i < a.len()
        invariant
            a@ == text@,
            b@ == lower@,
            i <= a@.len() == b@.len(),
            forall|k: int| 0 <= k < i ==> ascii_lower(#[trigger] a@[k]) == b@[k] as int,
        decreases a@.len() - i,
    {
        let c = a[i];
        let small: u32 = if 'A' <= c && c <= 'Z' {
            code_point(c) + 32
        } else {
            code_point(c)
        };
        if small != code_point(b[i]) {
            assert(ascii_lower(text@[i as int]) != lower@[i as int] as int);
            return false;
        }
        i = i + 1;
    }
    true
}

/// The decoders that are tried for a file with the extension `extension`, in
/// order.
pub fn fallback_chain(extension: Option<&str>) -> (chain: Vec<Backend>)
    ensures
        chain@ == chain_for(
            match extension {
                Some(ext) => Some(ext@),
                None => None,
            },
        ),
{
    let mut chain: Vec<Backend> = Vec::new();
    match extension {
        Some(ext) => {
            if eq_ignore_ascii_case(ext, "opus") {
                chain.push(Backend::Opus);
            } else if eq_ignore_ascii_case(ext, "ogg") {
                chain.push(Backend::Vorbis);
            } else if eq_ignore_ascii_case(ext, "m4a") {
                chain.push(Backend::Alac);
                chain.push(Backend::Opus);
                chain.push(Backend::Generic);
            } else {
                chain.push(Backend::Generic);
            }
        },
        None => {
            chain.push(Backend::Generic);
        },
    }
    chain.push(Backend::Ffmpeg);
    assert(chain@ =~= chain_for(
        match extension {
            Some(ext) => Some(ext@),
            None => None,
        },
    ));
    chain
}

/// The decoder that opened, whichever it is.
pub enum AudioDecoder {
    RodioDecoder(RodioDecoder),
    Opus(DecoderOpus),
    Vorbis(VorbisDecoder),
    Alac(AlacDecoder),
    FFmpeg(FFmpegDecoder),
}

impl AudioDecoder {
    /// Which decoder this is.
    pub open spec fn spec_backend(&self) -> Backend {
        match self {
            AudioDecoder::RodioDecoder(_) => Backend::Generic,
            AudioDecoder::Opus(_) => Backend::Opus,
            AudioDecoder::Vorbis(_) => Backend::Vorbis,
            AudioDecoder::Alac(_) => Backend::Alac,
            AudioDecoder::FFmpeg(_) => Backend::Ffmpeg,
        }
    }

    /// Which decoder this is.
    #[verifier::when_used_as_spec(spec_backend)]
    pub fn backend(&self) -> (backend: Backend)
        ensures
            backend == self.spec_backend(),
    {
        match self {
            AudioDecoder::RodioDecoder(_) => Backend::Generic,
            AudioDecoder::Opus(_) => Backend::Opus,
            AudioDecoder::Vorbis(_) => Backend::Vorbis,
            AudioDecoder::Alac(_) => Backend::Alac,
            AudioDecoder::FFmpeg(_) => Backend::Ffmpeg,
        }
    }

    /// Whether this is the decoder that opening the file gives: the Opus
    /// decoder freshly opened from `bytes`, any other as the caller handed
    /// it in.
    pub open spec fn opened_from(&self, bytes: Seq<u8>, outside: OutsideDecoders) -> bool {
        match self {
            AudioDecoder::RodioDecoder(d) => outside.generic == Some(*d),
            AudioDecoder::Opus(d) => d.opened_from(bytes),
            AudioDecoder::Vorbis(d) => outside.vorbis == Some(*d),
            AudioDecoder::Alac(d) => outside.alac == Some(*d),
            AudioDecoder::FFmpeg(d) => outside.ffmpeg == Some(*d),
        }
    }

    /// Wraps the decoder so that the first `duration` of the stream is
    /// dropped.
    pub fn skip_duration(self, duration: Duration) -> (skipping: SkipDuration<AudioDecoder>)
        ensures
            skipping.upstream() == self,
            skipping.to_skip() == samples_in(
                duration_nanos(duration),
                self.properties().sample_rate as nat,
                self.properties().channels as nat,
            ),
            skipping.skipped() == 0,
    {
        SkipDuration::new(self, duration)
    }
}

impl Source for AudioDecoder {
    open spec fn remaining(&self) -> Seq<Sample> {
        match self {
            AudioDecoder::RodioDecoder(d) => d.remaining(),
            AudioDecoder::Opus(d) => d.remaining(),
            AudioDecoder::Vorbis(d) => d.remaining(),
            AudioDecoder::Alac(d) => d.remaining(),
            AudioDecoder::FFmpeg(d) => d.remaining(),
        }
    }

    open spec fn properties(&self) -> StreamProperties {
        match self {
            AudioDecoder::RodioDecoder(d) => d.properties(),
            AudioDecoder::Opus(d) => d.properties(),
            AudioDecoder::Vorbis(d) => d.properties(),
            AudioDecoder::Alac(d) => d.properties(),
            AudioDecoder::FFmpeg(d) => d.properties(),
        }
    }

    open spec fn well_formed(&self) -> bool {
        match self {
            AudioDecoder::RodioDecoder(d) => d.well_formed(),
            AudioDecoder::Opus(d) => d.well_formed(),
            AudioDecoder::Vorbis(d) => d.well_formed(),
            AudioDecoder::Alac(d) => d.well_formed(),
            AudioDecoder::FFmpeg(d) => d.well_formed(),
        }
    }

    fn next(&mut self) -> (sample: Option<Sample>)
        ensures
            final(self).spec_backend() == old(self).spec_backend(),
    {
        match self {
            AudioDecoder::RodioDecoder(d) => d.next(),
            AudioDecoder::Opus(d) => d.next(),
            AudioDecoder::Vorbis(d) => d.next(),
            AudioDecoder::Alac(d) => d.next(),
            AudioDecoder::FFmpeg(d) => d.next(),
        }
    }

    fn current_frame_len(&self) -> (len: Option<usize>) {
        match self {
            AudioDecoder::RodioDecoder(d) => d.current_frame_len(),
            AudioDecoder::Opus(d) => d.current_frame_len(),
            AudioDecoder::Vorbis(d) => d.current_frame_len(),
            AudioDecoder::Alac(d) => d.current_frame_len(),
            AudioDecoder::FFmpeg(d) => d.current_frame_len(),
        }
    }

    fn channels(&self) -> (channels: u16) {
        match self {
            AudioDecoder::RodioDecoder(d) => d.channels(),
            AudioDecoder::Opus(d) => d.channels(),
            AudioDecoder::Vorbis(d) => d.channels(),
            AudioDecoder::Alac(d) => d.channels(),
            AudioDecoder::FFmpeg(d) => d.channels(),
        }
    }

    fn sample_rate(&self) -> (rate: u32) {
        match self {
            AudioDecoder::RodioDecoder(d) => d.sample_rate(),
            AudioDecoder::Opus(d) => d.sample_rate(),
            AudioDecoder::Vorbis(d) => d.sample_rate(),
            AudioDecoder::Alac(d) => d.sample_rate(),
            AudioDecoder::FFmpeg(d) => d.sample_rate(),
        }
    }

    fn total_duration(&self) -> (total: Option<Duration>) {
        match self {
            AudioDecoder::RodioDecoder(d) => d.total_duration(),
            AudioDecoder::Opus(d) => d.total_duration(),
            AudioDecoder::Vorbis(d) => d.total_duration(),
            AudioDecoder::Alac(d) => d.total_duration(),
            AudioDecoder::FFmpeg(d) => d.total_duration(),
        }
    }
}

/// The catch-all at the end of every chain: the FFmpeg decoder where the
/// caller could open one, else no decoder at all.
fn ffmpeg_or_unsupported(ffmpeg: Option<FFmpegDecoder>) -> (r: Result<AudioDecoder, OpenError>)
    ensures
        match r {
            Ok(decoder) => ffmpeg is Some && decoder == AudioDecoder::FFmpeg(ffmpeg.unwrap()),
            Err(e) => ffmpeg is None && e == OpenError::UnsupportedFormat,
        },
{
    match ffmpeg {
        Some(decoder) => Ok(AudioDecoder::FFmpeg(decoder)),
        None => Err(OpenError::UnsupportedFormat),
    }
}

/// The general-purpose decoder where the caller could open one, else the
/// catch-all.
fn generic_or_ffmpeg(generic: Option<RodioDecoder>, ffmpeg: Option<FFmpegDecoder>) -> (r: Result<
    AudioDecoder,
    OpenError,
>)
    ensures
        match r {
            Ok(decoder) => if generic is Some {
                decoder == AudioDecoder::RodioDecoder(generic.unwrap())
            } else {
                ffmpeg is Some && decoder == AudioDecoder::FFmpeg(ffmpeg.unwrap())
            },
            Err(e) => generic is None && ffmpeg is None && e == OpenError::UnsupportedFormat,
        },
{
    match generic {
        Some(decoder) => Ok(AudioDecoder::RodioDecoder(decoder)),
        None => ffmpeg_or_unsupported(ffmpeg),
    }
}

/// Opens a file with the first decoder of its chain that takes it.
///
/// `extension` is the extension of the file's name and `bytes` its content.
/// Only the Opus stream is read by the library itself; `outside` holds the
/// other decoders, each where the caller could open it. A file that no
/// decoder of its chain takes is not supported.
pub fn load_audio_file(extension: Option<&str>, bytes: &Vec<u8>, outside: OutsideDecoders) -> (r:
    Result<AudioDecoder, OpenError>)
    requires
        outside.well_formed(),
    ensures
        match r {
            Ok(decoder) => {
                &&& first_opening(
                    chain_for(
                        match extension {
                            Some(ext) => Some(ext@),
                            None => None,
                        },
                    ),
                    bytes@,
                    outside,
                ) == Some(decoder.spec_backend())
                &&& decoder.opened_from(bytes@, outside)
                &&& decoder.well_formed()
                &&& decoder.properties().valid()
            },
            Err(e) => {
                &&& e == OpenError::UnsupportedFormat
                &&& first_opening(
                    chain_for(
                        match extension {
                            Some(ext) => Some(ext@),
                            None => None,
                        },
                    ),
                    bytes@,
                    outside,
                ) is None
            },
        },
{
    let ghost chain = chain_for(
        match extension {
            Some(ext) => Some(ext@),
            None => None,
        },
    );
    proof {
        reveal_with_fuel(first_opening, 5);
        assert(chain.len() == 2 ==> chain.skip(1) =~= seq![chain[1]]);
        assert(chain.len() == 2 ==> chain.skip(1).skip(1) =~= Seq::<Backend>::empty());
        assert(chain.len() == 4 ==> chain.skip(1) =~= seq![chain[1], chain[2], chain[3]]);
        assert(chain.len() == 4 ==> chain.skip(1).skip(1) =~= seq![chain[2], chain[3]]);
        assert(chain.len() == 4 ==> chain.skip(1).skip(1).skip(1) =~= seq![chain[3]]);
        assert(chain.len() == 4 ==> chain.skip(1).skip(1).skip(1).skip(1) =~= Seq::<
            Backend,
        >::empty());
    }
    let OutsideDecoders { alac, vorbis, generic, ffmpeg } = outside;
    match extension {
        Some(ext) => {
            if eq_ignore_ascii_case(ext, "opus") {
                match DecoderOpus::load(bytes) {
                    Ok(decoder) => Ok(AudioDecoder::Opus(decoder)),
                    Err(_) => ffmpeg_or_unsupported(ffmpeg),
                }
            } else if eq_ignore_ascii_case(ext, "ogg") {
                match vorbis {
                    Some(decoder) => Ok(AudioDecoder::Vorbis(decoder)),
                    None => ffmpeg_or_unsupported(ffmpeg),
                }
            } else if eq_ignore_ascii_case(ext, "m4a") {
                match alac {
                    Some(decoder) => Ok(AudioDecoder::Alac(decoder)),
                    None => match DecoderOpus::load(bytes) {
                        Ok(decoder) => Ok(AudioDecoder::Opus(decoder)),
                        Err(_) => generic_or_ffmpeg(generic, ffmpeg),
                    },
                }
            } else {
                generic_or_ffmpeg(generic, ffmpeg)
            }
        },
        None => generic_or_ffmpeg(generic, ffmpeg),
    }
}

/// Two decoders of one kind that come of the same opening of the same file
/// hold the same samples and report the same properties, and two Opus
/// decoders have the same packets before them: what the library makes of a
/// file depends on the file and on what was handed in alone.
pub proof fn lemma_same_file_same_stream(
    one: AudioDecoder,
    other: AudioDecoder,
    bytes: Seq<u8>,
    outside: OutsideDecoders,
)
    requires
        one.opened_from(bytes, outside),
        other.opened_from(bytes, outside),
        one.spec_backend() == other.spec_backend(),
    ensures
        one.remaining() == other.remaining(),
        one.properties() == other.properties(),
        one matches AudioDecoder::Opus(a) ==> other matches AudioDecoder::Opus(b)
            && a.pending_packets() == b.pending_packets(),
{
}

/// The number of samples, all channels together, in the first `nanos`
/// nanoseconds of a stream: the whole frames that fit, times the channels,
/// as far as `usize` holds it.
pub open spec fn samples_in(nanos: nat, sample_rate: nat, channels: nat) -> nat {
    let samples = (nanos * sample_rate / 1_000_000_000) * channels;
    if samples > usize::MAX {
        usize::MAX as nat
    } else {
        samples
    }
}

/// How many samples a pull drops from an upstream of `len` samples where
/// `need` are still to be dropped: all that are to be dropped, as far as the
/// upstream goes.
pub open spec fn dropped_by_pull(len: nat, need: nat) -> nat {
    if need <= len {
        need
    } else {
        len
    }
}

/// What is left of `upstream` once its first `n` samples are dropped:
/// nothing, where it has no more than `n`.
pub open spec fn after_skip(upstream: Seq<Sample>, n: nat) -> Seq<Sample> {
    if n <= upstream.len() {
        upstream.skip(n as int)
    } else {
        Seq::empty()
    }
}

/// The number of samples in the first `nanos` nanoseconds of a stream.
pub fn samples_to_skip(nanos: u128, sample_rate: u32, channels: u16) -> (samples: usize)
    ensures
        samples == samples_in(nanos as nat, sample_rate as nat, channels as nat),
{
    if channels == 0 {
        assert((nanos * sample_rate / 1_000_000_000) * channels == 0) by (nonlinear_arith)
            requires
                channels == 0,
        ;
        return 0;
    }
    let ghost frames_exact: nat = (nanos * sample_rate / 1_000_000_000) as nat;
    let frames: u128 = match nanos.checked_mul(sample_rate as u128) {
        Some(scaled) => scaled / 1_000_000_000,
        None => {
            assert(frames_exact * channels > usize::MAX) by (nonlinear_arith)
                requires
                    frames_exact > u64::MAX,
                    channels >= 1,
            ;
            return usize::MAX;
        },
    };
    if frames > usize::MAX as u128 {
        assert(frames * channels > usize::MAX) by (nonlinear_arith)
            requires
                frames > usize::MAX,
                channels >= 1,
        ;
        return usize::MAX;
    }
    assert(frames * channels <= 0xffff_ffff_ffff_ffff * 0xffff) by (nonlinear_arith)
        requires
            frames <= 0xffff_ffff_ffff_ffff,
            channels <= 0xffff,
    ;
    let samples: u128 = frames * channels as u128;
    if samples > usize::MAX as u128 {
        usize::MAX
    } else {
        samples as usize
    }
}

/// What one pull of the upstream came to.
#[derive(Clone, Copy, Debug, PartialEq, Eq, Structural)]
pub enum Pull {
    /// A sample of the output.
    Sample(Sample),
    /// A sample that was dropped.
    Skipped,
    /// The upstream has nothing to give.
    Empty,
}

/// A source without the start of its upstream: the first pull drops the
/// samples to skip, and every pull after that is the upstream's.
pub struct SkipDuration<S> {
    source: S,
    samples_to_skip: usize,
    samples_skipped: usize,
}

impl<S: Source> SkipDuration<S> {
    /// The wrapped source.
    pub closed spec fn upstream(&self) -> S {
        self.source
    }

    /// The samples to drop in all.
    pub closed spec fn to_skip(&self) -> nat {
        self.samples_to_skip as nat
    }

    /// The samples dropped so far.
    pub closed spec fn skipped(&self) -> nat {
        self.samples_skipped as nat
    }

    /// Wraps `source` so that its first `duration` is dropped.
    pub fn new(source: S, duration: Duration) -> (skipping: SkipDuration<S>)
        ensures
            skipping.upstream() == source,
            skipping.to_skip() == samples_in(
                duration_nanos(duration),
                source.properties().sample_rate as nat,
                source.properties().channels as nat,
            ),
            skipping.skipped() == 0,
    {
        let samples_to_skip = samples_to_skip(
            duration_as_nanos(duration),
            source.sample_rate(),
            source.channels(),
        );
        SkipDuration { source, samples_to_skip, samples_skipped: 0 }
    }

    /// Wraps `source` so that its first `samples` samples are dropped.
    pub fn with_samples(source: S, samples: usize) -> (skipping: SkipDuration<S>)
        ensures
            skipping.upstream() == source,
            skipping.to_skip() == samples,
            skipping.skipped() == 0,
    {
        SkipDuration { source, samples_to_skip: samples, samples_skipped: 0 }
    }

    /// Hands the wrapped source back.
    pub fn into_inner(self) -> (source: S)
        ensures
            source == self.upstream(),
    {
        self.source
    }

    /// The wrapped source, to work on in place.
    pub fn upstream_mut(&mut self) -> (source: &mut S)
        ensures
            *source == old(self).upstream(),
            final(self).upstream() == *final(source),
            final(self).to_skip() == old(self).to_skip(),
            final(self).skipped() == old(self).skipped(),
    {
        &mut self.source
    }

    /// Pulls the upstream once. A caller whose upstream has to be fed from
    /// outside uses this in place of `next`: it feeds the upstream whenever
    /// the pull finds it empty, and pulls again.
    pub fn pull(&mut self) -> (pulled: Pull)
        requires
            old(self).well_formed(),
        ensures
            final(self).well_formed(),
            final(self).to_skip() == old(self).to_skip(),
            final(self).properties() == old(self).properties(),
            old(self).upstream().remaining().len() == 0 ==> {
                &&& pulled == Pull::Empty
                &&& final(self).skipped() == old(self).skipped()
                &&& final(self).upstream().remaining().len() == 0
            },
            old(self).upstream().remaining().len() > 0 ==> {
                &&& final(self).upstream().remaining() == old(self).upstream().remaining().skip(1)
                &&& if old(self).skipped() < old(self).to_skip() {
                    pulled == Pull::Skipped && final(self).skipped() == old(self).skipped() + 1
                } else {
                    &&& pulled == Pull::Sample(old(self).upstream().remaining()[0])
                    &&& final(self).skipped() == old(self).skipped()
                }
            },
    {
        match self.source.next() {
            Some(sample) => {
                if self.samples_skipped < self.samples_to_skip {
                    self.samples_skipped = self.samples_skipped + 1;
                    Pull::Skipped
                } else {
                    Pull::Sample(sample)
                }
            },
            None => Pull::Empty,
        }
    }
}

impl<S: Source> Source for SkipDuration<S> {
    /// What the upstream still holds, less what is still to be dropped.
    open spec fn remaining(&self) -> Seq<Sample> {
        after_skip(self.upstream().remaining(), (self.to_skip() - self.skipped()) as nat)
    }

    open spec fn properties(&self) -> StreamProperties {
        self.upstream().properties()
    }

    open spec fn well_formed(&self) -> bool {
        self.upstream().well_formed() && self.skipped() <= self.to_skip()
    }

    /// The first pull drops what is still to be dropped, as far as the
    /// upstream goes, and hands out the sample after it. Of the upstream it
    /// takes what it dropped and the one sample that it hands out.
    fn next(&mut self) -> (sample: Option<Sample>)
        ensures
            final(self).to_skip() == old(self).to_skip(),
            final(self).skipped() == old(self).skipped() + dropped_by_pull(
                old(self).upstream().remaining().len(),
                (old(self).to_skip() - old(self).skipped()) as nat,
            ),
            final(self).upstream().remaining() == after_skip(
                old(self).upstream().remaining(),
                (old(self).to_skip() - old(self).skipped() + 1) as nat,
            ),
    {
        let ghost start = self.source.remaining();
        let ghost skipped_before = self.samples_skipped;
        while self.samples_skipped < self.samples_to_skip
            invariant
                self.source.well_formed(),
                self.source.properties() == old(self).source.properties(),
                self.samples_to_skip == old(self).samples_to_skip,
                skipped_before == old(self).samples_skipped,
                start == old(self).source.remaining(),
                skipped_before <= self.samples_skipped <= self.samples_to_skip,
                self.samples_skipped - skipped_before <= start.len(),
                self.source.remaining() == start.skip(self.samples_skipped - skipped_before),
            decreases self.samples_to_skip - self.samples_skipped,
        {
            let ghost now = self.source.remaining();
            match self.source.next() {
                Some(_) => {
                    self.samples_skipped = self.samples_skipped + 1;
                    assert(now.skip(1) =~= start.skip(self.samples_skipped - skipped_before));
                },
                None => {
                    assert(self.source.remaining() =~= Seq::<Sample>::empty());
                    return None;
                },
            }
        }
        let ghost now = self.source.remaining();
        let sample = self.source.next();
        assert(now.len() > 0 ==> now.skip(0).skip(1) =~= now.skip(1));
        assert(now.skip(0) =~= now);
        assert(now.len() > 0 ==> now.skip(1) =~= start.skip(
            self.samples_to_skip - skipped_before + 1,
        ));
        assert(now.len() == 0 ==> self.source.remaining() =~= Seq::<Sample>::empty());
        sample
    }

    fn current_frame_len(&self) -> (len: Option<usize>) {
        self.source.current_frame_len()
    }

    fn channels(&self) -> (channels: u16) {
        self.source.channels()
    }

    fn sample_rate(&self) -> (rate: u32) {
        self.source.sample_rate()
    }

    fn total_duration(&self) -> (total: Option<Duration>) {
        self.source.total_duration()
    }
}

/// Skipping `n` samples of a stream of more than `n` leaves the stream that
/// begins with its `n + 1`-th sample and goes on in order; skipping `n` of a
/// stream of `n` or fewer leaves nothing.
pub proof fn lemma_after_skip(upstream: Seq<Sample>, n: nat)
    ensures
        n < upstream.len() ==> {
            &&& after_skip(upstream, n).len() == upstream.len() - n
            &&& after_skip(upstream, n)[0] == upstream[n as int]
            &&& forall|i: int|
                0 <= i < upstream.len() - n ==> after_skip(upstream, n)[i] == upstream[n + i]
        },
        n >= upstream.len() ==> after_skip(upstream, n).len() == 0,
{
}

/// A fresh adapter over an upstream of more than `to_skip` samples hands out
/// the upstream's `to_skip + 1`-th sample first; over an upstream of
/// `to_skip` samples or fewer it hands out nothing.
pub proof fn lemma_skip_duration_output<S: Source>(skipping: SkipDuration<S>)
    requires
        skipping.skipped() == 0,
    ensures
        skipping.to_skip() < skipping.upstream().remaining().len() ==> {
            &&& skipping.remaining().len() > 0
            &&& skipping.remaining()[0] == skipping.upstream().remaining()[skipping.to_skip() as int]
        },
        skipping.to_skip() >= skipping.upstream().remaining().len() ==> skipping.remaining().len()
            == 0,
{
    lemma_after_skip(skipping.upstream().remaining(), skipping.to_skip());
}

} // verus!
