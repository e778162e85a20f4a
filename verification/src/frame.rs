//! Frames: one sampled instant across all channels.

use vstd::prelude::*;
use crate::sample::{abs, magnitude, Sample};

verus! {

/// A fixed-size ordered group of samples, one per channel.
///
/// An array of samples is a frame with one channel per element, and a bare
/// sample is a frame of one channel.
pub trait Frame: Copy {
    /// The type of sample stored at each channel.
    type Sample: Sample;

    /// The samples of the frame, from channel 0 upwards.
    spec fn channels(self) -> Seq<Self::Sample>;

    /// The number of channels in the frame.
    fn num_channels(&self) -> (count: usize)
        ensures
            count == self.channels().len(),
    ;

    /// The sample of the channel at `idx`.
    fn channel(&self, idx: usize) -> (sample: Self::Sample)
        requires
            idx < self.channels().len(),
        ensures
            sample == self.channels()[idx as int],
    ;
}

impl<S: Sample, const N: usize> Frame for [S; N] {
    type Sample = S;

    open spec fn channels(self) -> Seq<S> {
        self@
    }

    fn num_channels(&self) -> (count: usize) {
        N
    }

    fn channel(&self, idx: usize) -> (sample: S) {
        self[idx]
    }
}

impl Frame for i8 {
    type Sample = i8;

    open spec fn channels(self) -> Seq<i8> {
        seq![self]
    }

    fn num_channels(&self) -> (count: usize) {
        1
    }

    fn channel(&self, idx: usize) -> (sample: i8) {
        *self
    }
}

impl Frame for i16 {
    type Sample = i16;

    open spec fn channels(self) -> Seq<i16> {
        seq![self]
    }

    fn num_channels(&self) -> (count: usize) {
        1
    }

    fn channel(&self, idx: usize) -> (sample: i16) {
        *self
    }
}

impl Frame for i32 {
    type Sample = i32;

    open spec fn channels(self) -> Seq<i32> {
        seq![self]
    }

    fn num_channels(&self) -> (count: usize) {
        1
    }

    fn channel(&self, idx: usize) -> (sample: i32) {
        *self
    }
}

impl Frame for i64 {
    type Sample = i64;

    open spec fn channels(self) -> Seq<i64> {
        seq![self]
    }

    fn num_channels(&self) -> (count: usize) {
        1
    }

    fn channel(&self, idx: usize) -> (sample: i64) {
        *self
    }
}

impl Frame for u8 {
    type Sample = u8;

    open spec fn channels(self) -> Seq<u8> {
        seq![self]
    }

    fn num_channels(&self) -> (count: usize) {
        1
    }

    fn channel(&self, idx: usize) -> (sample: u8) {
        *self
    }
}

impl Frame for u16 {
    type Sample = u16;

    open spec fn channels(self) -> Seq<u16> {
        seq![self]
    }

    fn num_channels(&self) -> (count: usize) {
        1
    }

    fn channel(&self, idx: usize) -> (sample: u16) {
        *self
    }
}

impl Frame for u32 {
    type Sample = u32;

    open spec fn channels(self) -> Seq<u32> {
        seq![self]
    }

    fn num_channels(&self) -> (count: usize) {
        1
    }

    fn channel(&self, idx: usize) -> (sample: u32) {
        *self
    }
}

impl Frame for u64 {
    type Sample = u64;

    open spec fn channels(self) -> Seq<u64> {
        seq![self]
    }

    fn num_channels(&self) -> (count: usize) {
        1
    }

    fn channel(&self, idx: usize) -> (sample: u64) {
        *self
    }
}

/// Whether a frame counts as silence: every channel's magnitude is strictly
/// less than the magnitude of the threshold.
///
/// One channel at or over the threshold makes the whole frame signal, and a
/// frame with no channels at all is silent.
pub open spec fn is_silent<F: Frame>(frame: F, threshold: F::Sample) -> bool {
    forall|i: int|
        0 <= i < frame.channels().len() ==> magnitude(
            (#[trigger] frame.channels()[i]).amplitude(),
        ) < magnitude(threshold.amplitude())
}

/// Tests a frame against a threshold: `true` when the frame is silence.
pub fn below_threshold<F: Frame>(frame: F, threshold: F::Sample) -> (below: bool)
    ensures
        below == is_silent(frame, threshold),
        (exists|i: int|
            0 <= i < frame.channels().len() && magnitude(
                (#[trigger] frame.channels()[i]).amplitude(),
            ) >= magnitude(threshold.amplitude())) ==> !below,
{
    let limit: u64 = abs(threshold.to_signed_sample());
    let count: usize = frame.num_channels();
    let mut idx: usize = 0;
    while idx < count
        invariant
            idx <= count,
            count == frame.channels().len(),
            limit == magnitude(threshold.amplitude()),
            forall|i: int|
                0 <= i < idx ==> magnitude((#[trigger] frame.channels()[i]).amplitude()) < limit,
        decreases count - idx,
    {
        let size: u64 = abs(frame.channel(idx).to_signed_sample());
        if size >= limit {
            return false;
        }
        idx += 1;
    }
    true
}

} // verus!
