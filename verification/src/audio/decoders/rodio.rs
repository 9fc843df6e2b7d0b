//! The general-purpose decoder, for everything that no other decoder claims.
//!
//! The codec runs outside and yields 16-bit integers. The library keeps the
//! properties that it reported on opening, and turns each integer into a
//! sample over the 16-bit full scale.

use crate::audio::sample::{sample_from_i16, Sample, I16_FULL_SCALE};
use crate::audio::source::{OpenError, Source, StreamProperties};
use std::collections::VecDeque;
use std::time::Duration;
use vstd::prelude::*;

verus! {

/// The library's half of the general-purpose decoder.
pub struct RodioDecoder {
    properties: StreamProperties,
    queue: VecDeque<Sample>,
}

impl RodioDecoder {
    /// The samples taken in and not yet handed out.
    pub closed spec fn buffered(&self) -> Seq<Sample> {
        self.queue@
    }

    /// Sets up the decoder for a stream with the properties that the codec
    /// reported on opening. Properties that no stream can have are refused.
    pub fn load(properties: StreamProperties) -> (r: Result<RodioDecoder, OpenError>)
        ensures
            match r {
                Ok(decoder) => {
                    &&& properties.valid()
                    &&& decoder.properties() == properties
                    &&& decoder.buffered() == Seq::<Sample>::empty()
                    &&& decoder.well_formed()
                },
                Err(e) => e == OpenError::MalformedHeader && !properties.valid(),
            },
    {
        if properties.channels == 0 || properties.sample_rate == 0 {
            return Err(OpenError::MalformedHeader);
        }
        Ok(RodioDecoder { properties, queue: VecDeque::new() })
    }

    /// One 16-bit integer of the codec as a sample.
    pub fn convert(value: i16) -> (out: Sample)
        ensures
            out == sample_from_i16(value),
            out.within_unit(),
    {
        Sample::Scaled { value: value as i32, divisor: I16_FULL_SCALE }
    }

    /// Takes in the next integer that the codec yielded.
    pub fn push(&mut self, value: i16)
        ensures
            final(self).buffered() == old(self).buffered().push(sample_from_i16(value)),
            final(self).properties() == old(self).properties(),
    {
        self.queue.push_back(Self::convert(value));
    }
}

impl Source for RodioDecoder {
    /// The queue: what has been taken in and not yet handed out.
    open spec fn remaining(&self) -> Seq<Sample> {
        self.buffered()
    }

    closed spec fn properties(&self) -> StreamProperties {
        self.properties
    }

    /// The properties are those of a stream.
    open spec fn well_formed(&self) -> bool {
        self.properties().valid()
    }

    fn next(&mut self) -> (sample: Option<Sample>) {
        let ghost before = self.queue@;
        let sample = self.queue.pop_front();
        assert(before.len() > 0 ==> self.queue@ =~= before.skip(1));
        assert(before.len() == 0 ==> self.queue@ =~= before);
        sample
    }

    fn current_frame_len(&self) -> (len: Option<usize>) {
        self.properties.frame_len
    }

    fn channels(&self) -> (channels: u16) {
        self.properties.channels
    }

    fn sample_rate(&self) -> (rate: u32) {
        self.properties.sample_rate
    }

    fn total_duration(&self) -> (total: Option<Duration>) {
        self.properties.total_duration
    }
}

} // verus!
