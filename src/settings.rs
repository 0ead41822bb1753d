use vstd::prelude::*;

verus! {

/// The frame rate of a stream given as an integer number of frames per second.
pub type SampleHz = u32;

/// A number of frames: one sample for each channel.
pub type Frames = u16;

/// A number of interleaved channels.
pub type Channels = u16;

/// Settings of one side (input or output) of a stream.
#[derive(Clone, Copy, Debug, PartialEq, Eq, Structural)]
pub struct Settings {
    /// The number of frames per second.
    pub sample_hz: SampleHz,
    /// How many frames make up one buffer.
    pub frames: Frames,
    /// Number of interleaved channels, for example 2 for stereo.
    pub channels: Channels,
}

impl Settings {
    /// The number of interleaved samples in one buffer of these settings.
    pub open spec fn samples(self) -> nat {
        self.frames as nat * self.channels as nat
    }

    /// All three quantities are positive.
    pub open spec fn is_valid(self) -> bool {
        &&& self.sample_hz > 0
        &&& self.frames > 0
        &&& self.channels > 0
    }

    /// Settings with the given rate, buffer size and channel count.
    pub fn new(sample_hz: SampleHz, frames: Frames, channels: Channels) -> (r: Settings)
        ensures
            r.sample_hz == sample_hz,
            r.frames == frames,
            r.channels == channels,
    {
        Settings { sample_hz, frames, channels }
    }

    /// The default settings: 44100 Hz, 256 frames per buffer, two channels.
    pub fn cd_quality() -> (r: Settings)
        ensures
            r.sample_hz == 44100,
            r.frames == 256,
            r.channels == 2,
    {
        Settings { sample_hz: 44100, frames: 256, channels: 2 }
    }

    /// The length in samples of a buffer that uses these settings.
    pub fn buffer_size(&self) -> (r: usize)
        ensures
            r == self.samples(),
    {
        proof {
            vstd::arithmetic::mul::lemma_mul_upper_bound(
                self.frames as int, 0xffff, self.channels as int, 0xffff);
        }
        self.frames as usize * self.channels as usize
    }

    /// True when the rate, buffer size and channel count are all positive.
    pub fn valid(&self) -> (r: bool)
        ensures
            r == self.is_valid(),
    {
        self.sample_hz > 0 && self.frames > 0 && self.channels > 0
    }
}

impl Default for Settings {
    fn default() -> (r: Settings)
        ensures
            r.sample_hz == 44100,
            r.frames == 256,
            r.channels == 2,
    {
        Settings::cd_quality()
    }
}

} // verus!
