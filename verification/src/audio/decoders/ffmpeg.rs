//! The catch-all decoder, for whatever FFmpeg can read.
//!
//! Demuxer and codec run outside. The library decides what they are asked
//! next, turns each decoded frame into samples, and keeps the queue. One
//! decode step goes like this: the caller calls
//! [`FFmpegDecoder::begin_decode`] and then follows [`FFmpegDecoder::step`]
//! until it says `Idle`, reporting what each request came to.

use crate::audio::sample::{
    enqueue, sample_from_bits, sample_from_i16, sample_from_i32, Sample,
};
use crate::audio::sample::{I16_FULL_SCALE, I32_FULL_SCALE};
use crate::audio::source::{OpenError, Source, StreamProperties};
use std::collections::VecDeque;
use std::time::Duration;
use vstd::arithmetic::div_mod::lemma_fundamental_div_mod_converse;
use vstd::prelude::*;

verus! {

/// Samples that the pending queue holds room for from the start.
pub const INITIAL_BUFFER_CAPACITY: usize = 4096;

/// The data of a decoded frame by sample format: one vector for each plane.
/// Floats are carried by their bits.
#[derive(Debug, PartialEq, Eq)]
pub enum FramePlanes {
    F32(Vec<Vec<u32>>),
    I16(Vec<Vec<i16>>),
    I32(Vec<Vec<i32>>),
    /// A sample format that the player does not convert.
    Unsupported,
}

/// A decoded frame as the codec hands it out.
#[derive(Debug, PartialEq, Eq)]
pub struct Frame {
    /// The data, by sample format.
    pub planes: FramePlanes,
    /// Whether each channel has a plane of its own; else the one plane holds
    /// the channels interleaved.
    pub planar: bool,
    /// Samples per channel.
    pub samples: usize,
    /// Number of channels.
    pub channels: usize,
}

/// Whether `planes` hold what a frame of `samples` samples in `channels`
/// channels reads from them: in planar layout a plane for each channel with
/// at least `samples` entries, unless the frame is empty; in packed layout
/// one plane.
pub open spec fn planes_hold<T>(planes: Seq<Vec<T>>, planar: bool, samples: nat, channels: nat)
    -> bool {
    if planar {
        samples == 0 || (planes.len() >= channels && forall|c: int|
            0 <= c < channels ==> (#[trigger] planes[c])@.len() >= samples)
    } else {
        planes.len() >= 1
    }
}

/// The entries of `planes` in output order. Planar data is interleaved: all
/// channels of the first instant, then all of the second, and so on. Packed
/// data is taken as it lies, up to `samples * channels` entries.
pub open spec fn interleaved<T>(planes: Seq<Vec<T>>, planar: bool, samples: nat, channels: nat)
    -> Seq<T> {
    if planar {
        Seq::new(samples * channels, |k: int| planes[k % channels as int]@[k / channels as int])
    } else if samples * channels <= planes[0]@.len() {
        planes[0]@.take((samples * channels) as int)
    } else {
        planes[0]@
    }
}

/// Whether the frame can be turned into samples.
pub open spec fn frame_decodable(frame: Frame) -> bool {
    match frame.planes {
        FramePlanes::F32(planes) => planes_hold(
            planes@,
            frame.planar,
            frame.samples as nat,
            frame.channels as nat,
        ),
        FramePlanes::I16(planes) => planes_hold(
            planes@,
            frame.planar,
            frame.samples as nat,
            frame.channels as nat,
        ),
        FramePlanes::I32(planes) => planes_hold(
            planes@,
            frame.planar,
            frame.samples as nat,
            frame.channels as nat,
        ),
        FramePlanes::Unsupported => false,
    }
}

/// The samples of a frame: floats as they are, 16-bit and 32-bit integers
/// over their full scale.
pub open spec fn frame_samples(frame: Frame) -> Seq<Sample> {
    match frame.planes {
        FramePlanes::F32(planes) => interleaved(
            planes@,
            frame.planar,
            frame.samples as nat,
            frame.channels as nat,
        ).map_values(|bits: u32| sample_from_bits(bits)),
        FramePlanes::I16(planes) => interleaved(
            planes@,
            frame.planar,
            frame.samples as nat,
            frame.channels as nat,
        ).map_values(|value: i16| sample_from_i16(value)),
        FramePlanes::I32(planes) => interleaved(
            planes@,
            frame.planar,
            frame.samples as nat,
            frame.channels as nat,
        ).map_values(|value: i32| sample_from_i32(value)),
        FramePlanes::Unsupported => Seq::empty(),
    }
}

/// Where one decode step stands.
#[derive(Clone, Copy, Debug, PartialEq, Eq, Structural)]
pub enum DecodePhase {
    /// No step is under way.
    Ready,
    /// The codec is to be asked for a frame.
    Receiving,
    /// The codec wants input: the container is to be asked for a packet.
    Feeding,
    /// Input is on its way to the codec.
    Sending,
}

/// What the caller does next.
#[derive(Clone, Copy, Debug, PartialEq, Eq, Structural)]
pub enum FfmpegStep {
    /// Nothing: the step is over. Take the next sample.
    Idle,
    /// Ask the codec for a decoded frame and report with `on_receive`.
    ReceiveFrame,
    /// Read the next packet of the container and report with `on_packet`.
    ReadPacket,
    /// Report how handing the input to the codec went, with `on_sent`.
    AwaitSend,
}

/// What asking the codec for a frame came to.
#[derive(Debug, PartialEq, Eq)]
pub enum ReceiveOutcome {
    /// A frame was decoded.
    Frame(Frame),
    /// The codec needs more input before it can hand out a frame.
    WouldBlock,
    /// The codec failed, or has nothing more to give.
    Failed,
}

/// What reading the container came to.
#[derive(Clone, Copy, Debug, PartialEq, Eq, Structural)]
pub enum PacketOutcome {
    /// A packet of the stream with this index.
    Packet { stream_index: usize },
    /// The container has no more packets.
    EndOfInput,
}

/// What is done with a packet that was read.
#[derive(Clone, Copy, Debug, PartialEq, Eq, Structural)]
pub enum PacketAction {
    /// Hand it to the codec.
    Send,
    /// Drop it: it belongs to another stream.
    Skip,
    /// Tell the codec that no more input will come.
    SendEof,
}

/// What the caller learned on opening the file.
#[derive(Clone, Copy, Debug, PartialEq, Eq, Structural)]
pub struct FfmpegStreamInfo {
    /// Channels of the audio stream.
    pub channels: u16,
    /// Its sample rate.
    pub sample_rate: u32,
    /// Its index among the streams of the container.
    pub stream_index: usize,
}

impl FfmpegStreamInfo {
    /// The properties that the decoder reports for this stream.
    pub open spec fn properties(self) -> StreamProperties {
        StreamProperties {
            channels: self.channels,
            sample_rate: self.sample_rate,
            frame_len: None,
            total_duration: None,
        }
    }
}

/// The decoder as contracts see it.
pub struct FfmpegState {
    /// Where the decode step stands.
    pub phase: DecodePhase,
    /// The samples decoded and not yet handed out.
    pub queue: Seq<Sample>,
    /// The stream that is decoded.
    pub info: FfmpegStreamInfo,
    /// Set for good by a frame that cannot be converted.
    pub fault: bool,
}

impl FfmpegState {
    /// After `begin_decode`: a step starts where the queue is empty, unless
    /// one is under way or the stream has a fault.
    pub open spec fn begun(self) -> FfmpegState {
        if self.queue.len() == 0 && !self.fault && self.phase == DecodePhase::Ready {
            FfmpegState { phase: DecodePhase::Receiving, ..self }
        } else {
            self
        }
    }

    /// What the caller does next.
    pub open spec fn step(self) -> FfmpegStep {
        match self.phase {
            DecodePhase::Ready => FfmpegStep::Idle,
            DecodePhase::Receiving => FfmpegStep::ReceiveFrame,
            DecodePhase::Feeding => FfmpegStep::ReadPacket,
            DecodePhase::Sending => FfmpegStep::AwaitSend,
        }
    }

    /// After the codec was asked for a frame. A frame ends the step: its
    /// samples join the queue, or, where it cannot be converted, the stream
    /// has a fault. A codec that wants input is fed. A failure ends the step.
    pub open spec fn received(self, outcome: ReceiveOutcome) -> FfmpegState {
        if self.phase != DecodePhase::Receiving {
            self
        } else {
            match outcome {
                ReceiveOutcome::Frame(frame) => if frame_decodable(frame) {
                    FfmpegState {
                        phase: DecodePhase::Ready,
                        queue: self.queue + frame_samples(frame),
                        ..self
                    }
                } else {
                    FfmpegState { phase: DecodePhase::Ready, fault: true, ..self }
                },
                ReceiveOutcome::WouldBlock => FfmpegState { phase: DecodePhase::Feeding, ..self },
                ReceiveOutcome::Failed => FfmpegState { phase: DecodePhase::Ready, ..self },
            }
        }
    }

    /// What is done with what the container gave: a packet of the decoded
    /// stream goes to the codec, a packet of another stream is dropped, and
    /// the end of input is passed on.
    pub open spec fn packet_action(self, outcome: PacketOutcome) -> PacketAction {
        if self.phase != DecodePhase::Feeding {
            PacketAction::Skip
        } else {
            match outcome {
                PacketOutcome::Packet { stream_index } => if stream_index
                    == self.info.stream_index {
                    PacketAction::Send
                } else {
                    PacketAction::Skip
                },
                PacketOutcome::EndOfInput => PacketAction::SendEof,
            }
        }
    }

    /// After the container was read: the codec is asked again once a packet
    /// was dropped, and once the input has arrived.
    pub open spec fn fed(self, outcome: PacketOutcome) -> FfmpegState {
        if self.phase != DecodePhase::Feeding {
            self
        } else if self.packet_action(outcome) == PacketAction::Skip {
            FfmpegState { phase: DecodePhase::Receiving, ..self }
        } else {
            FfmpegState { phase: DecodePhase::Sending, ..self }
        }
    }

    /// After the input was handed to the codec: the codec is asked again, or,
    /// where it refused the input, the step is over.
    pub open spec fn sent(self, accepted: bool) -> FfmpegState {
        if self.phase != DecodePhase::Sending {
            self
        } else if accepted {
            FfmpegState { phase: DecodePhase::Receiving, ..self }
        } else {
            FfmpegState { phase: DecodePhase::Ready, ..self }
        }
    }
}

proof fn lemma_interleave_index(i: int, c: int, channels: int)
    requires
        0 <= i,
        0 <= c < channels,
    ensures
        (i * channels + c) % channels == c,
        (i * channels + c) / channels == i,
{
    lemma_fundamental_div_mod_converse(i * channels + c, channels, i, c);
}

/// The entries of `planes` in output order, or `None` where the planes do
/// not hold what the frame reads.
fn interleave<T: Copy>(planes: &Vec<Vec<T>>, planar: bool, samples: usize, channels: usize) -> (out:
    Option<Vec<T>>)
    ensures
        match out {
            Some(v) => {
                &&& planes_hold(planes@, planar, samples as nat, channels as nat)
                &&& v@ == interleaved(planes@, planar, samples as nat, channels as nat)
            },
            None => !planes_hold(planes@, planar, samples as nat, channels as nat),
        },
{
    let mut out: Vec<T> = Vec::new();
    if planar {
        if samples == 0 {
            assert(samples * channels == 0) by (nonlinear_arith)
                requires
                    samples == 0,
            ;
            assert(out@ =~= interleaved(planes@, planar, samples as nat, channels as nat));
            return Some(out);
        }
        if planes.len() < channels {
            return None;
        }
        let mut c: usize = 0;
        while c < channels
            invariant
                planar,
                samples > 0,
                c <= channels <= planes@.len(),
                forall|k: int| 0 <= k < c ==> (#[trigger] planes@[k])@.len() >= samples,
            decreases channels - c,
        {
            if planes[c].len() < samples {
                assert((planes@[c as int])@.len() < samples);
                return None;
            }
            c = c + 1;
        }
        let mut i: usize = 0;
        while i < samples
            invariant
                i <= samples,
                channels <= planes@.len(),
                forall|k: int| 0 <= k < channels ==> (#[trigger] planes@[k])@.len() >= samples,
                out@.len() == i * channels,
                forall|k: int|
                    0 <= k < out@.len() ==> out@[k] == planes@[k % channels as int]@[k
                        / channels as int],
            decreases samples - i,
        {
            let mut c: usize = 0;
            while c < channels
                invariant
                    i < samples,
                    c <= channels <= planes@.len(),
                    forall|k: int|
                        0 <= k < channels ==> (#[trigger] planes@[k])@.len() >= samples,
                    out@.len() == i * channels + c,
                    forall|k: int|
                        0 <= k < out@.len() ==> out@[k] == planes@[k % channels as int]@[k
                            / channels as int],
                decreases channels - c,
            {
                proof {
                    lemma_interleave_index(i as int, c as int, channels as int);
                }
                out.push(planes[c][i]);
                c = c + 1;
            }
            assert((i + 1) * channels == i * channels + channels) by (nonlinear_arith);
            i = i + 1;
        }
        assert(out@ =~= interleaved(planes@, planar, samples as nat, channels as nat));
        Some(out)
    } else {
        if planes.len() == 0 {
            return None;
        }
        let plane = &planes[0];
        let count: usize = match samples.checked_mul(channels) {
            Some(wanted) => if wanted <= plane.len() {
                wanted
            } else {
                plane.len()
            },
            None => plane.len(),
        };
        let mut i: usize = 0;
        while i < count
            invariant
                i <= count <= plane@.len(),
                out@ == plane@.take(i as int),
            decreases count - i,
        {
            out.push(plane[i]);
            i = i + 1;
            assert(out@ =~= plane@.take(i as int));
        }
        assert(plane@.take(plane@.len() as int) =~= plane@);
        Some(out)
    }
}

/// The library's half of the FFmpeg decoder.
pub struct FFmpegDecoder {
    sample_buffer: VecDeque<Sample>,
    info: FfmpegStreamInfo,
    phase: DecodePhase,
    fault: bool,
}

impl View for FFmpegDecoder {
    type V = FfmpegState;

    closed spec fn view(&self) -> FfmpegState {
        FfmpegState {
            phase: self.phase,
            queue: self.sample_buffer@,
            info: self.info,
            fault: self.fault,
        }
    }
}

impl FFmpegDecoder {
    /// Sets up the decoder for the stream that the caller opened. A stream
    /// without a channel or without a sample rate is refused.
    pub fn load(info: FfmpegStreamInfo) -> (r: Result<FFmpegDecoder, OpenError>)
        ensures
            match r {
                Ok(decoder) => {
                    &&& info.properties().valid()
                    &&& decoder@ == (FfmpegState {
                        phase: DecodePhase::Ready,
                        queue: Seq::empty(),
                        info,
                        fault: false,
                    })
                    &&& decoder.well_formed()
                    &&& decoder.properties() == info.properties()
                },
                Err(e) => e == OpenError::MalformedHeader && !info.properties().valid(),
            },
    {
        if info.channels == 0 || info.sample_rate == 0 {
            return Err(OpenError::MalformedHeader);
        }
        Ok(
            FFmpegDecoder {
                sample_buffer: VecDeque::with_capacity(INITIAL_BUFFER_CAPACITY),
                info,
                phase: DecodePhase::Ready,
                fault: false,
            },
        )
    }

    /// The samples of a decoded frame in output order, or `None` for a frame
    /// that cannot be converted.
    pub fn process_frame(frame: &Frame) -> (out: Option<Vec<Sample>>)
        ensures
            match out {
                Some(samples) => frame_decodable(*frame) && samples@ == frame_samples(*frame),
                None => !frame_decodable(*frame),
            },
    {
        match &frame.planes {
            FramePlanes::F32(planes) => Self::process_f32_frame(
                planes,
                frame.planar,
                frame.samples,
                frame.channels,
            ),
            FramePlanes::I16(planes) => Self::process_i16_frame(
                planes,
                frame.planar,
                frame.samples,
                frame.channels,
            ),
            FramePlanes::I32(planes) => Self::process_i32_frame(
                planes,
                frame.planar,
                frame.samples,
                frame.channels,
            ),
            FramePlanes::Unsupported => None,
        }
    }

    /// The samples of a frame of floats: the floats as they are.
    pub fn process_f32_frame(
        planes: &Vec<Vec<u32>>,
        planar: bool,
        samples: usize,
        channels: usize,
    ) -> (out: Option<Vec<Sample>>)
        ensures
            match out {
                Some(v) => {
                    &&& planes_hold(planes@, planar, samples as nat, channels as nat)
                    &&& v@ == interleaved(
                        planes@,
                        planar,
                        samples as nat,
                        channels as nat,
                    ).map_values(|bits: u32| sample_from_bits(bits))
                },
                None => !planes_hold(planes@, planar, samples as nat, channels as nat),
            },
    {
        let ordered = match interleave(planes, planar, samples, channels) {
            Some(ordered) => ordered,
            None => {
                return None;
            },
        };
        let mut out: Vec<Sample> = Vec::new();
        let mut i: usize = 0;
        while i < ordered.len()
            invariant
                i <= ordered@.len(),
                out@ == ordered@.take(i as int).map_values(|bits: u32| sample_from_bits(bits)),
            decreases ordered@.len() - i,
        {
            out.push(Sample::Float { bits: ordered[i] });
            i = i + 1;
            assert(out@ =~= ordered@.take(i as int).map_values(
                |bits: u32| sample_from_bits(bits),
            ));
        }
        assert(ordered@.take(i as int) =~= ordered@);
        Some(out)
    }

    /// The samples of a frame of 16-bit integers, each over 32768.
    pub fn process_i16_frame(
        planes: &Vec<Vec<i16>>,
        planar: bool,
        samples: usize,
        channels: usize,
    ) -> (out: Option<Vec<Sample>>)
        ensures
            match out {
                Some(v) => {
                    &&& planes_hold(planes@, planar, samples as nat, channels as nat)
                    &&& v@ == interleaved(
                        planes@,
                        planar,
                        samples as nat,
                        channels as nat,
                    ).map_values(|value: i16| sample_from_i16(value))
                },
                None => !planes_hold(planes@, planar, samples as nat, channels as nat),
            },
    {
        let ordered = match interleave(planes, planar, samples, channels) {
            Some(ordered) => ordered,
            None => {
                return None;
            },
        };
        let mut out: Vec<Sample> = Vec::new();
        let mut i: usize = 0;
        while i < ordered.len()
            invariant
                i <= ordered@.len(),
                out@ == ordered@.take(i as int).map_values(|value: i16| sample_from_i16(value)),
            decreases ordered@.len() - i,
        {
            out.push(Sample::Scaled { value: ordered[i] as i32, divisor: I16_FULL_SCALE });
            i = i + 1;
            assert(out@ =~= ordered@.take(i as int).map_values(
                |value: i16| sample_from_i16(value),
            ));
        }
        assert(ordered@.take(i as int) =~= ordered@);
        Some(out)
    }

    /// The samples of a frame of 32-bit integers, each over 2147483648.
    pub fn process_i32_frame(
        planes: &Vec<Vec<i32>>,
        planar: bool,
        samples: usize,
        channels: usize,
    ) -> (out: Option<Vec<Sample>>)
        ensures
            match out {
                Some(v) => {
                    &&& planes_hold(planes@, planar, samples as nat, channels as nat)
                    &&& v@ == interleaved(
                        planes@,
                        planar,
                        samples as nat,
                        channels as nat,
                    ).map_values(|value: i32| sample_from_i32(value))
                },
                None => !planes_hold(planes@, planar, samples as nat, channels as nat),
            },
    {
        let ordered = match interleave(planes, planar, samples, channels) {
            Some(ordered) => ordered,
            None => {
                return None;
            },
        };
        let mut out: Vec<Sample> = Vec::new();
        let mut i: usize = 0;
        while i < ordered.len()
            invariant
                i <= ordered@.len(),
                out@ == ordered@.take(i as int).map_values(|value: i32| sample_from_i32(value)),
            decreases ordered@.len() - i,
        {
            out.push(Sample::Scaled { value: ordered[i], divisor: I32_FULL_SCALE });
            i = i + 1;
            assert(out@ =~= ordered@.take(i as int).map_values(
                |value: i32| sample_from_i32(value),
            ));
        }
        assert(ordered@.take(i as int) =~= ordered@);
        Some(out)
    }

    /// Whether the queue holds a sample.
    pub fn has_samples(&self) -> (some: bool)
        ensures
            some == (self@.queue.len() > 0),
    {
        self.sample_buffer.len() > 0
    }

    /// Starts a decode step where the queue is empty.
    pub fn begin_decode(&mut self)
        ensures
            final(self)@ == old(self)@.begun(),
    {
        if self.sample_buffer.len() == 0 && !self.fault && self.phase == DecodePhase::Ready {
            self.phase = DecodePhase::Receiving;
        }
    }

    /// What the caller does next.
    pub fn step(&self) -> (step: FfmpegStep)
        ensures
            step == self@.step(),
    {
        match self.phase {
            DecodePhase::Ready => FfmpegStep::Idle,
            DecodePhase::Receiving => FfmpegStep::ReceiveFrame,
            DecodePhase::Feeding => FfmpegStep::ReadPacket,
            DecodePhase::Sending => FfmpegStep::AwaitSend,
        }
    }

    /// Takes what asking the codec for a frame came to.
    pub fn on_receive(&mut self, outcome: ReceiveOutcome)
        ensures
            final(self)@ == old(self)@.received(outcome),
    {
        if self.phase != DecodePhase::Receiving {
            return;
        }
        match outcome {
            ReceiveOutcome::Frame(frame) => {
                match Self::process_frame(&frame) {
                    Some(samples) => {
                        enqueue(&mut self.sample_buffer, &samples);
                    },
                    None => {
                        self.fault = true;
                    },
                }
                self.phase = DecodePhase::Ready;
            },
            ReceiveOutcome::WouldBlock => {
                self.phase = DecodePhase::Feeding;
            },
            ReceiveOutcome::Failed => {
                self.phase = DecodePhase::Ready;
            },
        }
    }

    /// Takes what reading the container came to, and says what is done with
    /// it.
    pub fn on_packet(&mut self, outcome: PacketOutcome) -> (action: PacketAction)
        ensures
            action == old(self)@.packet_action(outcome),
            final(self)@ == old(self)@.fed(outcome),
    {
        if self.phase != DecodePhase::Feeding {
            return PacketAction::Skip;
        }
        let action = match outcome {
            PacketOutcome::Packet { stream_index } => if stream_index == self.info.stream_index {
                PacketAction::Send
            } else {
                PacketAction::Skip
            },
            PacketOutcome::EndOfInput => PacketAction::SendEof,
        };
        self.phase = match action {
            PacketAction::Skip => DecodePhase::Receiving,
            _ => DecodePhase::Sending,
        };
        action
    }

    /// Takes whether the codec accepted the input.
    pub fn on_sent(&mut self, accepted: bool)
        ensures
            final(self)@ == old(self)@.sent(accepted),
    {
        if self.phase == DecodePhase::Sending {
            self.phase = if accepted {
                DecodePhase::Receiving
            } else {
                DecodePhase::Ready
            };
        }
    }
}

impl Source for FFmpegDecoder {
    /// The queue: what has been decoded and not yet handed out.
    open spec fn remaining(&self) -> Seq<Sample> {
        self@.queue
    }

    open spec fn properties(&self) -> StreamProperties {
        self@.info.properties()
    }

    /// The properties are those of a stream.
    open spec fn well_formed(&self) -> bool {
        self@.info.properties().valid()
    }

    fn next(&mut self) -> (sample: Option<Sample>)
        ensures
            final(self)@ == (FfmpegState { queue: final(self)@.queue, ..old(self)@ }),
    {
        let ghost before = self.sample_buffer@;
        let sample = self.sample_buffer.pop_front();
        assert(before.len() > 0 ==> self.sample_buffer@ =~= before.skip(1));
        assert(before.len() == 0 ==> self.sample_buffer@ =~= before);
        sample
    }

    fn current_frame_len(&self) -> (len: Option<usize>) {
        None
    }

    fn channels(&self) -> (channels: u16) {
        self.info.channels
    }

    fn sample_rate(&self) -> (rate: u32) {
        self.info.sample_rate
    }

    fn total_duration(&self) -> (total: Option<Duration>) {
        None
    }
}

} // verus!
