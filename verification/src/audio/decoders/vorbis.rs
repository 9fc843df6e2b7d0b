//! Ogg Vorbis.
//!
//! Container and codec run outside and decode packet by packet into
//! interleaved 16-bit integers. The caller opens the file and hands the
//! identification header to [`VorbisDecoder::load`]; whenever the queue is
//! empty it decodes the next packet and hands it to
//! [`VorbisDecoder::push_packet`]. Each integer is divided by the largest
//! 16-bit sample.

use crate::audio::sample::{enqueue, Sample, I16_MAX_SCALE};
use crate::audio::source::{OpenError, Source, StreamProperties};
use std::collections::VecDeque;
use std::time::Duration;
use vstd::prelude::*;

verus! {

/// Samples that the pending queue holds room for from the start.
pub const INITIAL_BUFFER_CAPACITY: usize = 4096;

/// One 16-bit integer of a Vorbis packet as a sample.
pub open spec fn vorbis_sample(value: i16) -> Sample {
    Sample::Scaled { value: value as i32, divisor: I16_MAX_SCALE }
}

/// A decoded packet as samples.
pub open spec fn vorbis_packet(packet: Seq<i16>) -> Seq<Sample> {
    Seq::new(packet.len(), |i: int| vorbis_sample(packet[i]))
}

/// What the identification header of a Vorbis stream says.
#[derive(Clone, Copy, Debug, PartialEq, Eq, Structural)]
pub struct VorbisIdent {
    /// Number of channels.
    pub channels: u8,
    /// Samples per second and channel.
    pub sample_rate: u32,
}

impl VorbisIdent {
    /// The properties that the decoder reports for this header.
    pub open spec fn properties(self) -> StreamProperties {
        StreamProperties {
            channels: self.channels as u16,
            sample_rate: self.sample_rate,
            frame_len: None,
            total_duration: None,
        }
    }
}

/// The library's half of the Vorbis decoder.
pub struct VorbisDecoder {
    ident: VorbisIdent,
    sample_buffer: VecDeque<Sample>,
}

impl VorbisDecoder {
    /// The samples decoded and not yet handed out.
    pub closed spec fn buffered(&self) -> Seq<Sample> {
        self.sample_buffer@
    }

    /// The identification header that the stream was opened with.
    pub closed spec fn ident(&self) -> VorbisIdent {
        self.ident
    }

    /// Whether this is the decoder that `load` makes of `ident`: nothing
    /// buffered.
    pub open spec fn opened_from(&self, ident: VorbisIdent) -> bool {
        &&& self.ident() == ident
        &&& self.buffered() == Seq::<Sample>::empty()
        &&& self.well_formed()
    }

    /// Sets up the decoder for a stream with the identification header
    /// `ident`, as the caller read it on opening the file. A header that
    /// names no channel or no sample rate is malformed.
    pub fn load(ident: VorbisIdent) -> (r: Result<VorbisDecoder, OpenError>)
        ensures
            match r {
                Ok(decoder) => {
                    &&& ident.properties().valid()
                    &&& decoder.opened_from(ident)
                    &&& decoder.properties() == ident.properties()
                },
                Err(e) => e == OpenError::MalformedHeader && !ident.properties().valid(),
            },
    {
        if ident.channels == 0 || ident.sample_rate == 0 {
            return Err(OpenError::MalformedHeader);
        }
        Ok(
            VorbisDecoder {
                ident,
                sample_buffer: VecDeque::with_capacity(INITIAL_BUFFER_CAPACITY),
            },
        )
    }

    /// One 16-bit integer of a packet as a sample.
    pub fn convert(value: i16) -> (out: Sample)
        ensures
            out == vorbis_sample(value),
    {
        Sample::Scaled { value: value as i32, divisor: I16_MAX_SCALE }
    }

    /// A decoded packet as samples.
    pub fn convert_packet(decoded: &[i16]) -> (out: Vec<Sample>)
        ensures
            out@ == vorbis_packet(decoded@),
    {
        let mut samples: Vec<Sample> = Vec::new();
        let mut i: usize = 0;
        while i < decoded.len()
            invariant
                i <= decoded@.len(),
                samples@ == vorbis_packet(decoded@.take(i as int)),
            decreases decoded@.len() - i,
        {
            samples.push(Self::convert(decoded[i]));
            i = i + 1;
            assert(samples@ =~= vorbis_packet(decoded@.take(i as int)));
        }
        assert(decoded@.take(i as int) =~= decoded@);
        samples
    }

    /// Whether the queue is empty, so that a packet has to be decoded before
    /// the next sample can be had.
    pub fn needs_packet(&self) -> (needed: bool)
        ensures
            needed == (self.buffered().len() == 0),
    {
        self.sample_buffer.len() == 0
    }

    /// Takes in one decoded packet, channels interleaved. A packet may be
    /// empty.
    pub fn push_packet(&mut self, decoded: &[i16])
        ensures
            final(self).ident() == old(self).ident(),
            final(self).buffered() == old(self).buffered() + vorbis_packet(decoded@),
    {
        let samples = Self::convert_packet(decoded);
        enqueue(&mut self.sample_buffer, &samples);
    }
}

impl Source for VorbisDecoder {
    /// The queue: what has been decoded and not yet handed out.
    open spec fn remaining(&self) -> Seq<Sample> {
        self.buffered()
    }

    open spec fn properties(&self) -> StreamProperties {
        self.ident().properties()
    }

    /// The header is that of a stream.
    open spec fn well_formed(&self) -> bool {
        self.ident().properties().valid()
    }

    fn next(&mut self) -> (sample: Option<Sample>)
        ensures
            final(self).ident() == old(self).ident(),
    {
        let ghost before = self.sample_buffer@;
        let sample = self.sample_buffer.pop_front();
        assert(before.len() > 0 ==> self.sample_buffer@ =~= before.skip(1));
        assert(before.len() == 0 ==> self.sample_buffer@ =~= before);
        sample
    }

    fn current_frame_len(&self) -> (len: Option<usize>) {
        None
    }

    fn channels(&self) -> (channels: u16) {
        self.ident.channels as u16
    }

    fn sample_rate(&self) -> (rate: u32) {
        self.ident.sample_rate
    }

    fn total_duration(&self) -> (total: Option<Duration>) {
        None
    }
}

} // verus!
