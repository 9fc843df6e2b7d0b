//! Ogg Opus.
//!
//! The library reads the Ogg packets, tests the two headers that lead the
//! stream, and keeps the queue of decoded samples.
//! The Opus codec itself runs outside: the caller takes a packet with
//! [`DecoderOpus::next_packet`], decodes it into a buffer of
//! [`OPUS_BUFFER_SIZE`] floats, and hands the buffer back with
//! [`DecoderOpus::push_decoded`].

use crate::audio::sample::{sample_from_bits, Sample};
use crate::audio::source::{OpenError, Source, StreamProperties};
use ogg::reading::PacketReader;
use std::collections::VecDeque;
use std::io::Cursor;
use std::time::Duration;
use vstd::prelude::*;

verus! {

/// Samples that the pending queue holds room for from the start.
pub const INITIAL_BUFFER_CAPACITY: usize = 4096;

/// Length of the buffer that one packet is decoded into, in floats: room for
/// a frame of 60 ms at 48 kHz.
pub const OPUS_BUFFER_SIZE: usize = 2880;

/// The rate that Opus always decodes at.
pub const OPUS_SAMPLE_RATE: u32 = 48000;

/// The channels that the decoder is set up for.
pub const OPUS_CHANNELS: u16 = 2;

/// The frame length that the decoder reports: 20 ms at 48 kHz.
pub const OPUS_FRAME_LEN: usize = 960;

/// Packets that lead an Opus stream: identification and comment.
pub const OPUS_HEADER_PACKETS: usize = 2;

/// The properties of every Opus stream.
pub open spec fn opus_properties() -> StreamProperties {
    StreamProperties {
        channels: OPUS_CHANNELS,
        sample_rate: OPUS_SAMPLE_RATE,
        frame_len: Some(OPUS_FRAME_LEN),
        total_duration: None,
    }
}

/// Whether `packet` begins with the eight bytes `OpusHead`, as the
/// identification header does.
pub open spec fn identification_header(packet: Seq<u8>) -> bool {
    &&& packet.len() >= 8
    &&& packet[0] == 0x4f
    &&& packet[1] == 0x70
    &&& packet[2] == 0x75
    &&& packet[3] == 0x73
    &&& packet[4] == 0x48
    &&& packet[5] == 0x65
    &&& packet[6] == 0x61
    &&& packet[7] == 0x64
}

/// Whether `packet` begins with the eight bytes `OpusTags`, as the comment
/// header does.
pub open spec fn comment_header(packet: Seq<u8>) -> bool {
    &&& packet.len() >= 8
    &&& packet[0] == 0x4f
    &&& packet[1] == 0x70
    &&& packet[2] == 0x75
    &&& packet[3] == 0x73
    &&& packet[4] == 0x54
    &&& packet[5] == 0x61
    &&& packet[6] == 0x67
    &&& packet[7] == 0x73
}

/// Whether `packets` begin with the two headers of an Opus stream: the
/// identification header, then the comment header.
pub open spec fn leading_headers(packets: Seq<Seq<u8>>) -> bool {
    &&& packets.len() >= OPUS_HEADER_PACKETS
    &&& identification_header(packets[0])
    &&& comment_header(packets[1])
}

/// Whether `packet` is an identification header by its first bytes.
pub fn is_identification_header(packet: &[u8]) -> (is: bool)
    ensures
        is == identification_header(packet@),
{
    packet.len() >= 8 && packet[0] == 0x4f && packet[1] == 0x70 && packet[2] == 0x75 && packet[3]
        == 0x73 && packet[4] == 0x48 && packet[5] == 0x65 && packet[6] == 0x61 && packet[7]
        == 0x64
}

/// Whether `packet` is a comment header by its first bytes.
pub fn is_comment_header(packet: &[u8]) -> (is: bool)
    ensures
        is == comment_header(packet@),
{
    packet.len() >= 8 && packet[0] == 0x4f && packet[1] == 0x70 && packet[2] == 0x75 && packet[3]
        == 0x73 && packet[4] == 0x54 && packet[5] == 0x61 && packet[6] == 0x67 && packet[7]
        == 0x73
}

/// How many entries of a decode buffer of `len` floats count, where the
/// codec reports `decoded_samples` samples per channel: two for each, as far
/// as the buffer goes.
pub open spec fn decoded_len(len: nat, decoded_samples: nat) -> nat {
    if decoded_samples * OPUS_CHANNELS as nat <= len {
        decoded_samples * OPUS_CHANNELS as nat
    } else {
        len
    }
}

/// The samples that a decode buffer yields.
pub open spec fn decoded_output(output: Seq<u32>, decoded_samples: nat) -> Seq<Sample> {
    Seq::new(
        decoded_len(output.len(), decoded_samples),
        |i: int| sample_from_bits(output[i]),
    )
}

/// An Ogg file under the `ogg` crate's packet reader.
#[verifier::external_body]
pub struct OggStream {
    inner: PacketReader<Cursor<Vec<u8>>>,
}

/// The packet reader over the bytes of a file.
pub uninterp spec fn ogg_opened(bytes: Seq<u8>) -> OggStream;

/// The packets that a reader still holds, in order, up to the end of the
/// physical stream or to the first page that cannot be read.
pub uninterp spec fn ogg_pending(stream: OggStream) -> Seq<Seq<u8>>;

/// `PacketReader::new` over the bytes of a file. Nothing is read yet.
#[verifier::external_body]
fn ogg_open(bytes: &Vec<u8>) -> (stream: OggStream)
    ensures
        stream == ogg_opened(bytes@),
{
    OggStream { inner: PacketReader::new(Cursor::new(bytes.clone())) }
}

/// `PacketReader::read_packet`: takes the next packet off the stream and
/// hands out its data. The crate reports the end of the stream, and a page
/// that it cannot read, without a packet.
#[verifier::external_body]
fn ogg_read_packet(stream: &mut OggStream) -> (packet: Option<Vec<u8>>)
    ensures
        match packet {
            Some(data) => {
                &&& ogg_pending(*old(stream)).len() > 0
                &&& data@ == ogg_pending(*old(stream))[0]
                &&& ogg_pending(*final(stream)) == ogg_pending(*old(stream)).skip(1)
            },
            None => ogg_pending(*old(stream)).len() == 0,
        },
{
    match stream.inner.read_packet() {
        Ok(Some(packet)) => Some(packet.data),
        _ => None,
    }
}

/// The library's half of the Opus decoder.
pub struct DecoderOpus {
    packet_reader: OggStream,
    sample_buffer: VecDeque<Sample>,
}

impl DecoderOpus {
    /// The samples decoded and not yet handed out.
    pub closed spec fn buffered(&self) -> Seq<Sample> {
        self.sample_buffer@
    }

    /// The packets that the stream still holds.
    pub closed spec fn pending_packets(&self) -> Seq<Seq<u8>> {
        ogg_pending(self.packet_reader)
    }

    /// Whether `bytes` are an Ogg stream that begins with the two headers of
    /// an Opus stream.
    pub open spec fn opens(bytes: Seq<u8>) -> bool {
        leading_headers(ogg_pending(ogg_opened(bytes)))
    }

    /// Whether this is the decoder that `load` makes of `bytes`: past the
    /// two header packets, nothing buffered.
    pub open spec fn opened_from(&self, bytes: Seq<u8>) -> bool {
        &&& self.pending_packets() == ogg_pending(ogg_opened(bytes)).skip(
            OPUS_HEADER_PACKETS as int,
        )
        &&& self.buffered() == Seq::<Sample>::empty()
        &&& self.well_formed()
    }

    /// Opens the bytes of a file as Ogg Opus: takes the two header packets
    /// off the stream and tests that the first is an identification header
    /// and the second a comment header. A stream that does not begin with
    /// them is refused; on success the next packet is the first of the
    /// audio.
    pub fn load(bytes: &Vec<u8>) -> (r: Result<DecoderOpus, OpenError>)
        ensures
            match r {
                Ok(decoder) => {
                    &&& Self::opens(bytes@)
                    &&& decoder.opened_from(bytes@)
                    &&& decoder.properties().valid()
                },
                Err(e) => e == OpenError::HeaderMissing && !Self::opens(bytes@),
            },
    {
        let mut packet_reader = ogg_open(bytes);
        let ghost all = ogg_pending(packet_reader);
        match ogg_read_packet(&mut packet_reader) {
            Some(header) => {
                if !is_identification_header(header.as_slice()) {
                    return Err(OpenError::HeaderMissing);
                }
            },
            None => {
                return Err(OpenError::HeaderMissing);
            },
        }
        match ogg_read_packet(&mut packet_reader) {
            Some(comments) => {
                assert(comments@ == all[1]);
                if !is_comment_header(comments.as_slice()) {
                    return Err(OpenError::HeaderMissing);
                }
            },
            None => {
                return Err(OpenError::HeaderMissing);
            },
        }
        assert(all.skip(1).skip(1) =~= all.skip(2));
        Ok(
            DecoderOpus {
                packet_reader,
                sample_buffer: VecDeque::with_capacity(INITIAL_BUFFER_CAPACITY),
            },
        )
    }

    /// Whether the queue is empty, so that a packet has to be decoded before
    /// the next sample can be had.
    pub fn needs_packet(&self) -> (needed: bool)
        ensures
            needed == (self.buffered().len() == 0),
    {
        self.sample_buffer.len() == 0
    }

    /// Takes the next packet off the stream, for the codec. `None` at the end
    /// of the stream.
    pub fn next_packet(&mut self) -> (packet: Option<Vec<u8>>)
        ensures
            final(self).buffered() == old(self).buffered(),
            match packet {
                Some(data) => {
                    &&& old(self).pending_packets().len() > 0
                    &&& data@ == old(self).pending_packets()[0]
                    &&& final(self).pending_packets() == old(self).pending_packets().skip(1)
                },
                None => old(self).pending_packets().len() == 0,
            },
    {
        ogg_read_packet(&mut self.packet_reader)
    }

    /// Takes what the codec made of one packet: `output` is the decode
    /// buffer, each float by its bits, and `decoded_samples` the number of
    /// samples per channel that the codec reports. The first
    /// `2 * decoded_samples` entries of the buffer join the queue.
    pub fn push_decoded(&mut self, output: &[u32], decoded_samples: usize)
        ensures
            final(self).buffered() == old(self).buffered() + decoded_output(
                output@,
                decoded_samples as nat,
            ),
            final(self).pending_packets() == old(self).pending_packets(),
    {
        let count: usize = if decoded_samples > output.len() / 2 {
            output.len()
        } else {
            decoded_samples * 2
        };
        assert(count == decoded_len(output@.len(), decoded_samples as nat));
        let mut i: usize = 0;
        while i < count
            invariant
                i <= count <= output@.len(),
                self.packet_reader == old(self).packet_reader,
                self.sample_buffer@ == old(self).sample_buffer@ + Seq::new(
                    i as nat,
                    |k: int| sample_from_bits(output@[k]),
                ),
            decreases count - i,
        {
            self.sample_buffer.push_back(Sample::Float { bits: output[i] });
            i = i + 1;
            assert(self.sample_buffer@ =~= old(self).sample_buffer@ + Seq::new(
                i as nat,
                |k: int| sample_from_bits(output@[k]),
            ));
        }
    }
}

impl Source for DecoderOpus {
    /// The queue: what has been decoded and not yet handed out.
    open spec fn remaining(&self) -> Seq<Sample> {
        self.buffered()
    }

    open spec fn properties(&self) -> StreamProperties {
        opus_properties()
    }

    /// Every decoder is.
    open spec fn well_formed(&self) -> bool {
        true
    }

    fn next(&mut self) -> (sample: Option<Sample>)
        ensures
            final(self).pending_packets() == old(self).pending_packets(),
    {
        let ghost before = self.sample_buffer@;
        let sample = self.sample_buffer.pop_front();
        assert(before.len() > 0 ==> self.sample_buffer@ =~= before.skip(1));
        assert(before.len() == 0 ==> self.sample_buffer@ =~= before);
        sample
    }

    fn current_frame_len(&self) -> (len: Option<usize>) {
        Some(OPUS_FRAME_LEN)
    }

    fn channels(&self) -> (channels: u16) {
        OPUS_CHANNELS
    }

    fn sample_rate(&self) -> (rate: u32) {
        OPUS_SAMPLE_RATE
    }

    fn total_duration(&self) -> (total: Option<Duration>) {
        None
    }
}

} // verus!
