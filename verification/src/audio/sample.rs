//! Samples as the decoders hand them on.
//!
//! A decoded sample is a number in `[-1, 1]`. The library never divides: it
//! keeps the integer that the codec produced together with the full-scale
//! value that it is to be divided by, and leaves the one division to whoever
//! feeds the output device. What a codec produced as a float already is
//! carried as its bit pattern.

use std::collections::VecDeque;
use vstd::prelude::*;

verus! {

/// Full scale of 16-bit PCM.
pub const I16_FULL_SCALE: u32 = 32768;

/// The largest 16-bit sample, by which Vorbis output is divided.
pub const I16_MAX_SCALE: u32 = 32767;

/// Full scale of 24-bit PCM.
pub const I24_FULL_SCALE: u32 = 8388608;

/// Full scale of 32-bit PCM.
pub const I32_FULL_SCALE: u32 = 2147483648;

/// One sample of the output stream.
#[derive(Clone, Copy, Debug, PartialEq, Eq, Structural)]
pub enum Sample {
    /// The number `value / divisor`.
    Scaled { value: i32, divisor: u32 },
    /// The single-precision float with this bit pattern.
    Float { bits: u32 },
}

impl Sample {
    /// Whether the sample is a quotient that lies in `[-1, 1]`.
    pub open spec fn within_unit(self) -> bool {
        match self {
            Sample::Scaled { value, divisor } => divisor > 0 && -divisor <= value <= divisor,
            Sample::Float { .. } => false,
        }
    }
}

/// Whether every sample of `samples` is a quotient that lies in `[-1, 1]`.
pub open spec fn all_within_unit(samples: Seq<Sample>) -> bool {
    forall|i: int| 0 <= i < samples.len() ==> (#[trigger] samples[i]).within_unit()
}

/// Appends `samples` to the end of `queue`, in order.
pub fn enqueue(queue: &mut VecDeque<Sample>, samples: &Vec<Sample>)
    ensures
        final(queue)@ == old(queue)@ + samples@,
{
    let mut i: usize = 0;
    assert(queue@ =~= old(queue)@ + samples@.take(0));
    while i < samples.len()
        invariant
            i <= samples@.len(),
            queue@ == old(queue)@ + samples@.take(i as int),
        decreases samples@.len() - i,
    {
        queue.push_back(samples[i]);
        i = i + 1;
        assert(queue@ =~= old(queue)@ + samples@.take(i as int));
    }
    assert(samples@.take(i as int) =~= samples@);
}

/// A 16-bit sample over the 16-bit full scale.
pub open spec fn sample_from_i16(value: i16) -> Sample {
    Sample::Scaled { value: value as i32, divisor: I16_FULL_SCALE }
}

/// A 32-bit sample over the 32-bit full scale.
pub open spec fn sample_from_i32(value: i32) -> Sample {
    Sample::Scaled { value, divisor: I32_FULL_SCALE }
}

/// A float sample, carried by its bits.
pub open spec fn sample_from_bits(bits: u32) -> Sample {
    Sample::Float { bits }
}

/// Every 16-bit and every 32-bit sample over its own full scale lies in
/// `[-1, 1]`.
pub proof fn lemma_full_scale_within_unit(narrow: i16, wide: i32)
    ensures
        sample_from_i16(narrow).within_unit(),
        sample_from_i32(wide).within_unit(),
{
}

} // verus!
