//! The shared sample buffer: one immutable, reference-counted array of
//! fixed-point amplitudes per channel, shared by every consumer. A "view" is
//! a shared handle plus an integer offset, so seeking never copies sample
//! data.

use std::sync::Arc;
use vstd::prelude::*;

verus! {

use crate::error::AudioError;
use crate::error::VoyagerError;

/// Which channel of a stereo recording to read.
#[derive(Debug, Clone, Copy, PartialEq, Eq, Structural)]
pub enum WaveformChannel {
    Left,
    Right,
}

/// A shared, immutable buffer of fixed-point amplitudes for one channel.
///
/// Sharing a buffer copies a reference-counted handle, never the samples;
/// nothing mutates the samples after construction.
#[derive(Debug)]
pub struct SampleBuffer {
    data: Arc<Vec<i32>>,
    sample_rate: u32,
    channel_count: u16,
}

impl SampleBuffer {
    /// The samples the buffer holds.
    pub closed spec fn samples(&self) -> Seq<i32> {
        self.data@
    }

    /// The sample rate of the recording, in Hz.
    pub closed spec fn spec_sample_rate(&self) -> u32 {
        self.sample_rate
    }

    /// The channel count of the recording the buffer was read from.
    pub closed spec fn spec_channel_count(&self) -> u16 {
        self.channel_count
    }

    /// Wraps a sample array in a shared buffer.
    pub fn new(samples: Vec<i32>, sample_rate: u32, channel_count: u16) -> (b: Self)
        ensures
            b.samples() == samples@,
            b.spec_sample_rate() == sample_rate,
            b.spec_channel_count() == channel_count,
    {
        SampleBuffer { data: Arc::new(samples), sample_rate, channel_count }
    }

    pub fn sample_rate(&self) -> (r: u32)
        ensures
            r == self.spec_sample_rate(),
    {
        self.sample_rate
    }

    pub fn channel_count(&self) -> (c: u16)
        ensures
            c == self.spec_channel_count(),
    {
        self.channel_count
    }

    pub fn len(&self) -> (n: usize)
        ensures
            n == self.samples().len(),
    {
        self.data.len()
    }

    pub fn is_empty(&self) -> (e: bool)
        ensures
            e == (self.samples().len() == 0),
    {
        self.data.len() == 0
    }

    /// The sample at index `i`.
    pub fn get(&self, i: usize) -> (s: i32)
        requires
            i < self.samples().len(),
        ensures
            s == self.samples()[i as int],
    {
        self.data[i]
    }

    /// The whole sample array, borrowed as a slice.
    pub fn as_slice(&self) -> (s: &[i32])
        ensures
            s@ == self.samples(),
    {
        self.data.as_slice()
    }

    /// A second handle to the same samples. Costs one reference count, not
    /// one copy of the sample data.
    pub fn share(&self) -> (b: Self)
        ensures
            b.samples() == self.samples(),
            b.spec_sample_rate() == self.spec_sample_rate(),
            b.spec_channel_count() == self.spec_channel_count(),
    {
        SampleBuffer {
            data: self.data.clone(),
            sample_rate: self.sample_rate,
            channel_count: self.channel_count,
        }
    }

    /// Whether two handles point at the same allocation. Two handles made by
    /// `share` from one buffer report `true`; a `true` answer implies the
    /// two hold the same samples.
    ///
    /// Relies on `Arc::ptr_eq`: true exactly when the two handles point to
    /// the same allocation, and handles to one allocation read one value.
    #[verifier::external_body]
    pub fn shares_storage(&self, other: &SampleBuffer) -> (r: bool)
        ensures
            r ==> self.samples() == other.samples(),
    {
        Arc::ptr_eq(&self.data, &other.data)
    }
}

/// A cursor into a shared buffer: the handle and an integer offset. Creating
/// one is O(1) bookkeeping; the samples are never copied.
#[derive(Debug)]
pub struct BufferView {
    buffer: SampleBuffer,
    offset: usize,
}

impl BufferView {
    /// The buffer the view reads.
    pub closed spec fn spec_buffer(&self) -> SampleBuffer {
        self.buffer
    }

    /// The samples of the underlying buffer.
    pub open spec fn samples(&self) -> Seq<i32> {
        self.spec_buffer().samples()
    }

    /// The offset the view starts at.
    pub closed spec fn spec_offset(&self) -> int {
        self.offset as int
    }

    /// A view is well-formed when its offset lies inside the buffer.
    pub open spec fn wf(&self) -> bool {
        self.spec_offset() < self.samples().len()
    }

    /// Places a view at `offset` into a shared buffer.
    ///
    /// Succeeds exactly when the offset lies inside the buffer, the buffer
    /// has a nonzero channel count and a nonzero sample rate; each failed
    /// check reports its own error value.
    pub fn new(buffer: SampleBuffer, offset: usize) -> (r: Result<BufferView, AudioError>)
        ensures
            match r {
                Ok(v) => {
                    &&& offset < buffer.samples().len()
                    &&& buffer.spec_channel_count() != 0
                    &&& buffer.spec_sample_rate() != 0
                    &&& v.spec_buffer() == buffer
                    &&& v.spec_offset() == offset
                    &&& v.wf()
                },
                Err(AudioError::BufferTooShort { needed, actual }) => offset
                    >= buffer.samples().len() && needed == vstd::math::min(
                    offset as int + 1,
                    usize::MAX as int,
                ) && actual == buffer.samples().len(),
                Err(AudioError::UnsupportedChannels { channels }) => offset
                    < buffer.samples().len() && buffer.spec_channel_count() == 0 && channels == 0,
                Err(AudioError::InvalidSampleRate { rate }) => offset < buffer.samples().len()
                    && buffer.spec_channel_count() != 0 && buffer.spec_sample_rate() == 0 && rate
                    == 0,
                Err(_) => false,
            },
    {
        if offset >= buffer.len() {
            let needed: usize = if offset < usize::MAX {
                offset + 1
            } else {
                usize::MAX
            };
            return Err(AudioError::BufferTooShort { needed, actual: buffer.len() });
        }
        if buffer.channel_count() == 0 {
            return Err(AudioError::UnsupportedChannels { channels: 0 });
        }
        if buffer.sample_rate() == 0 {
            return Err(AudioError::InvalidSampleRate { rate: 0 });
        }
        Ok(BufferView { buffer, offset })
    }

    /// How many samples remain from the offset to the end of the buffer.
    pub fn remaining(&self) -> (n: usize)
        requires
            self.wf(),
        ensures
            n == self.samples().len() - self.spec_offset(),
    {
        self.buffer.len() - self.offset
    }

    /// The `i`-th sample past the offset, or `None` past the end.
    pub fn sample_at(&self, i: usize) -> (s: Option<i32>)
        requires
            self.wf(),
        ensures
            self.spec_offset() + i < self.samples().len() ==> s == Some(
                self.samples()[self.spec_offset() + i],
            ),
            self.spec_offset() + i >= self.samples().len() ==> s is None,
    {
        if i < self.buffer.len() - self.offset {
            Some(self.buffer.get(self.offset + i))
        } else {
            None
        }
    }

    /// The offset, for drivers that track positions.
    pub fn offset(&self) -> (o: usize)
        ensures
            o == self.spec_offset(),
    {
        self.offset
    }

    /// The shared handle the view reads through.
    pub fn buffer(&self) -> (b: &SampleBuffer)
        ensures
            b == self.spec_buffer(),
    {
        &self.buffer
    }

    /// A second view of the same buffer at a new offset: O(1), no copy.
    pub fn reseek(&self, offset: usize) -> (r: Result<BufferView, AudioError>)
        ensures
            match r {
                Ok(v) => offset < self.samples().len() && v.samples() == self.samples()
                    && v.spec_offset() == offset && v.wf(),
                Err(AudioError::BufferTooShort { needed, actual }) => offset
                    >= self.samples().len() && needed == vstd::math::min(
                    offset as int + 1,
                    usize::MAX as int,
                ) && actual == self.samples().len(),
                Err(_) => false,
            },
    {
        if offset >= self.buffer.len() {
            let needed: usize = if offset < usize::MAX {
                offset + 1
            } else {
                usize::MAX
            };
            return Err(AudioError::BufferTooShort { needed, actual: self.buffer.len() });
        }
        Ok(BufferView { buffer: self.buffer.share(), offset })
    }
}

/// The two channels of a loaded recording, sharing storage where the source
/// was mono.
#[derive(Debug)]
pub struct WavReader {
    pub left_channel: SampleBuffer,
    pub right_channel: SampleBuffer,
    pub sample_rate: u32,
    pub channels: u16,
}

/// The even-indexed samples of an interleaved stereo array.
pub open spec fn spec_deinterleave_left(samples: Seq<i32>) -> Seq<i32> {
    Seq::new((samples.len() / 2) as nat, |i: int| samples[2 * i])
}

/// The odd-indexed samples of an interleaved stereo array.
pub open spec fn spec_deinterleave_right(samples: Seq<i32>) -> Seq<i32> {
    Seq::new((samples.len() / 2) as nat, |i: int| samples[2 * i + 1])
}

impl WavReader {
    /// Builds the per-channel buffers of a recording from its raw sample
    /// array, validating rate and channel count.
    ///
    /// Succeeds exactly when the sample rate lies in 8 kHz..=192 kHz, the
    /// channel count is one or two, and the array is non-empty. A mono
    /// recording shares one buffer between both channels; a stereo recording
    /// is split into even (left) and odd (right) samples, dropping an
    /// unpaired trailing sample. `path` only labels the empty-file error.
    pub fn from_interleaved(samples: Vec<i32>, sample_rate: u32, channels: u16, path: String) -> (r:
        Result<WavReader, VoyagerError>)
        ensures
            match r {
                Ok(w) => {
                    &&& 8000 <= sample_rate <= 192_000
                    &&& (channels == 1 || channels == 2)
                    &&& samples@.len() > 0
                    &&& w.sample_rate == sample_rate
                    &&& w.channels == channels
                    &&& w.left_channel.spec_sample_rate() == sample_rate
                    &&& w.right_channel.spec_sample_rate() == sample_rate
                    &&& channels == 1 ==> w.left_channel.samples() == samples@
                        && w.right_channel.samples() == samples@
                    &&& channels == 2 ==> w.left_channel.samples() == spec_deinterleave_left(
                        samples@,
                    ) && w.right_channel.samples() == spec_deinterleave_right(samples@)
                },
                Err(VoyagerError::Audio(AudioError::InvalidSampleRate { rate })) => rate
                    == sample_rate && !(8000 <= sample_rate <= 192_000),
                Err(VoyagerError::Audio(AudioError::UnsupportedChannels { channels: c })) => c
                    == channels && 8000 <= sample_rate <= 192_000 && channels != 1 && channels
                    != 2,
                Err(VoyagerError::Audio(AudioError::EmptyFile { .. })) => 8000 <= sample_rate
                    <= 192_000 && (channels == 1 || channels == 2) && samples@.len() == 0,
                Err(_) => false,
            },
    {
        if sample_rate < 8000 || sample_rate > 192_000 {
            return Err(VoyagerError::Audio(AudioError::InvalidSampleRate { rate: sample_rate }));
        }
        if channels != 1 && channels != 2 {
            return Err(VoyagerError::Audio(AudioError::UnsupportedChannels { channels }));
        }
        if samples.len() == 0 {
            return Err(VoyagerError::Audio(AudioError::EmptyFile { path }));
        }
        if channels == 1 {
            let left = SampleBuffer::new(samples, sample_rate, channels);
            let right = left.share();
            Ok(WavReader { left_channel: left, right_channel: right, sample_rate, channels })
        } else {
            let total: usize = samples.len();
            let pairs: usize = total / 2;
            let mut left: Vec<i32> = Vec::new();
            let mut right: Vec<i32> = Vec::new();
            let mut i: usize = 0;
            proof {
                vstd::arithmetic::div_mod::lemma_fundamental_div_mod(samples@.len() as int, 2);
            }
            while i < pairs
                invariant
                    total == samples@.len(),
                    pairs == samples@.len() as int / 2,
                    2 * pairs <= total,
                    i <= pairs,
                    left@.len() == i,
                    right@.len() == i,
                    forall|j: int| 0 <= j < i ==> #[trigger] left@[j] == samples@[2 * j],
                    forall|j: int| 0 <= j < i ==> #[trigger] right@[j] == samples@[2 * j + 1],
                decreases pairs - i,
            {
                left.push(samples[2 * i]);
                right.push(samples[2 * i + 1]);
                i += 1;
            }
            proof {
                assert(left@ =~= spec_deinterleave_left(samples@));
                assert(right@ =~= spec_deinterleave_right(samples@));
            }
            let left_buffer = SampleBuffer::new(left, sample_rate, channels);
            let right_buffer = SampleBuffer::new(right, sample_rate, channels);
            Ok(
                WavReader {
                    left_channel: left_buffer,
                    right_channel: right_buffer,
                    sample_rate,
                    channels,
                },
            )
        }
    }

    /// The buffer of the selected channel, shared without copying.
    pub fn get_samples(&self, channel: WaveformChannel) -> (b: SampleBuffer)
        ensures
            channel == WaveformChannel::Left ==> b.samples() == self.left_channel.samples(),
            channel == WaveformChannel::Right ==> b.samples() == self.right_channel.samples(),
            b.spec_sample_rate() == match channel {
                WaveformChannel::Left => self.left_channel.spec_sample_rate(),
                WaveformChannel::Right => self.right_channel.spec_sample_rate(),
            },
    {
        match channel {
            WaveformChannel::Left => self.left_channel.share(),
            WaveformChannel::Right => self.right_channel.share(),
        }
    }
}

} // verus!
