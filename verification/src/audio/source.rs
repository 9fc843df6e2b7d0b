//! What every decoder offers: one sample at a time, and the properties of
//! the stream.

use crate::audio::sample::Sample;
use std::time::Duration;
use vstd::prelude::*;

verus! {

/// Why a file could not be opened as audio.
#[derive(Clone, Copy, Debug, PartialEq, Eq, Structural)]
pub enum OpenError {
    /// The file could not be read.
    IoError,
    /// Packets that must lead the stream are not there.
    HeaderMissing,
    /// The stream's description of itself cannot be read or cannot be true.
    MalformedHeader,
    /// No decoder takes the file.
    UnsupportedFormat,
}

/// The properties of an opened stream.
#[derive(Clone, Copy, Debug, PartialEq, Eq)]
pub struct StreamProperties {
    /// Number of interleaved channels.
    pub channels: u16,
    /// Samples per second and channel.
    pub sample_rate: u32,
    /// Samples per frame where frames have one size; `None` where they vary.
    pub frame_len: Option<usize>,
    /// Length of the stream where the decoder knows it.
    pub total_duration: Option<Duration>,
}

impl StreamProperties {
    /// Whether the properties can be those of a stream: at least one channel
    /// and a sample rate above zero.
    pub open spec fn valid(self) -> bool {
        self.channels >= 1 && self.sample_rate > 0
    }
}

/// A finite stream of samples, channels interleaved, in file order.
pub trait Source {
    /// The samples that the source holds and will hand out, in order.
    spec fn remaining(&self) -> Seq<Sample>;

    /// The properties of the stream.
    spec fn properties(&self) -> StreamProperties;

    /// What the source keeps true of itself between calls.
    spec fn well_formed(&self) -> bool;

    /// Hands out the next sample. `None` ends the stream: a source that has
    /// nothing left gives nothing, and a pull leaves it with nothing. The
    /// properties of the stream are the same after a pull as before it.
    fn next(&mut self) -> (sample: Option<Sample>)
        requires
            old(self).well_formed(),
        ensures
            final(self).well_formed(),
            final(self).properties() == old(self).properties(),
            old(self).remaining().len() == 0 ==> {
                &&& sample is None
                &&& final(self).remaining().len() == 0
            },
            old(self).remaining().len() > 0 ==> {
                &&& sample == Some(old(self).remaining()[0])
                &&& final(self).remaining() == old(self).remaining().skip(1)
            },
    ;

    /// Samples per frame, where frames have one size.
    fn current_frame_len(&self) -> (len: Option<usize>)
        ensures
            len == self.properties().frame_len,
    ;

    /// Number of channels.
    fn channels(&self) -> (channels: u16)
        ensures
            channels == self.properties().channels,
    ;

    /// Samples per second and channel.
    fn sample_rate(&self) -> (rate: u32)
        ensures
            rate == self.properties().sample_rate,
    ;

    /// Length of the stream, where the decoder knows it.
    fn total_duration(&self) -> (total: Option<Duration>)
        ensures
            total == self.properties().total_duration,
    ;
}

} // verus!
