use vstd::prelude::*;
use crate::error::ConfigError;
use crate::rate::round_div;
use crate::settings::Settings;

verus! {

/// What a callback tells the device driver after processing one buffer.
#[derive(Clone, Copy, Debug, PartialEq, Eq, Structural)]
pub enum CallbackResult {
    /// Finish successfully and close the stream.
    Complete,
    /// Keep the stream going.
    Continue,
    /// Abort the stream.
    Abort,
}

/// The kind of the event a duplex stream produced last.
#[derive(Clone, Copy, Debug, PartialEq, Eq, Structural)]
pub enum LastEvent {
    In,
    Out,
    Update,
}

/// How the size of a device buffer is requested.
#[derive(Clone, Copy, Debug, PartialEq, Eq, Structural)]
pub enum BufferFrequency {
    /// This many buffers per second.
    Hz(u32),
    /// This many frames per buffer.
    Frames(u16),
}

/// What `frames_per_buffer` returns.
pub open spec fn frames_per_buffer_spec(freq: Option<BufferFrequency>, sample_hz: u32) -> Result<u32, ConfigError> {
    match freq {
        None => Ok(0),
        Some(BufferFrequency::Frames(f)) => Ok(f as u32),
        Some(BufferFrequency::Hz(hz)) => if hz == 0 {
            Err(ConfigError::ZeroHz)
        } else {
            Ok(round_div(sample_hz as nat, hz as nat) as u32)
        },
    }
}

/// The frames per device buffer that a stream is opened with: a frame count as given; a
/// buffer frequency as `sample_hz / hz` rounded to the nearest integer; none as zero,
/// which leaves the choice to the device.
pub fn frames_per_buffer(freq: Option<BufferFrequency>, sample_hz: u32) -> (r: Result<u32, ConfigError>)
    ensures
        r == frames_per_buffer_spec(freq, sample_hz),
{
    match freq {
        None => Ok(0),
        Some(BufferFrequency::Frames(f)) => Ok(f as u32),
        Some(BufferFrequency::Hz(hz)) => {
            if hz == 0 {
                return Err(ConfigError::ZeroHz);
            }
            let n = sample_hz as u64;
            let d = hz as u64;
            let q = (2 * n + d) / (2 * d);
            proof {
                vstd::arithmetic::div_mod::lemma_fundamental_div_mod((2 * n + d) as int, (2 * d) as int);
                vstd::arithmetic::div_mod::lemma_mod_pos_bound((2 * n + d) as int, (2 * d) as int);
                assert(q <= n) by (nonlinear_arith)
                    requires
                        2 * n + d == (2 * d) * q + (2 * n + d) % (2 * d),
                        (2 * n + d) % (2 * d) >= 0,
                        d >= 1,
                        q >= 0,
                ;
            }
            Ok(q as u32)
        },
    }
}

/// The frames per device buffer of a blocking stream, whose scheduler needs a fixed
/// buffer size: as `frames_per_buffer` gives it, with 256 frames where no size is asked
/// for.
pub open spec fn blocking_frames_spec(freq: Option<BufferFrequency>, sample_hz: u32) -> Result<u16, ConfigError> {
    match frames_per_buffer_spec(freq, sample_hz) {
        Err(e) => Err(e),
        Ok(f) => if freq is None {
            Ok(256)
        } else if f == 0 || f > u16::MAX {
            Err(ConfigError::BufferSize(f))
        } else {
            Ok(f as u16)
        },
    }
}

/// The frames per device buffer of a blocking stream: the size asked for, or 256 frames
/// without one. A size of no frames, or of more than a frame count holds, is refused.
pub fn blocking_frames(freq: Option<BufferFrequency>, sample_hz: u32) -> (r: Result<u16, ConfigError>)
    ensures
        r == blocking_frames_spec(freq, sample_hz),
{
    if freq.is_none() {
        return Ok(256);
    }
    match frames_per_buffer(freq, sample_hz) {
        Err(e) => Err(e),
        Ok(f) => {
            if f == 0 || f > u16::MAX as u32 {
                Err(ConfigError::BufferSize(f))
            } else {
                Ok(f as u16)
            }
        },
    }
}

/// The channel count a side is opened with: the requested count, or two, but never more
/// than the device offers.
pub fn resolve_channels(requested: Option<i32>, device_max: i32) -> (r: i32)
    ensures
        r == (match requested {
            Some(n) => if n < device_max { n } else { device_max },
            None => if 2 < device_max { 2 } else { device_max },
        }),
{
    let want = match requested {
        Some(n) => n,
        None => 2,
    };
    if want < device_max {
        want
    } else {
        device_max
    }
}

/// The time between the calls of a stream callback, from the device's clock in
/// nanoseconds.
#[derive(Clone, Copy, Debug)]
pub struct CallbackTiming {
    last: Option<u64>,
}

impl CallbackTiming {
    /// The reading of the last call, if there was one.
    pub closed spec fn last(self) -> Option<u64> {
        self.last
    }

    /// Timing before the first call.
    pub fn new() -> (r: CallbackTiming)
        ensures
            r.last() is None,
    {
        CallbackTiming { last: None }
    }

    /// The nanoseconds since the last call: zero on the first call, and for a reading
    /// behind the last one.
    pub fn delta(&mut self, now: u64) -> (r: u64)
        ensures
            r == (match old(self).last() {
                None => 0,
                Some(t) => if now >= t { now - t } else { 0 },
            }),
            final(self).last() == Some(now),
    {
        let d = match self.last {
            None => 0,
            Some(t) => if now >= t { now - t } else { 0 },
        };
        self.last = Some(now);
        d
    }
}

/// The settings handed to a callback for a buffer of `frames` frames; a count beyond the
/// range of a frame count is clamped.
pub fn callback_settings(sample_hz: u32, frames: u32, channels: u16) -> (r: Settings)
    ensures
        r.sample_hz == sample_hz,
        r.channels == channels,
        r.frames == (if frames > u16::MAX { u16::MAX as u32 } else { frames }),
{
    let f: u16 = if frames > u16::MAX as u32 { u16::MAX } else { frames as u16 };
    Settings { sample_hz, frames: f, channels }
}

} // verus!
