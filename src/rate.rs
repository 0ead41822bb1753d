use vstd::prelude::*;
use crate::error::ConfigError;
use crate::settings::Settings;

verus! {

/// How often the caller wants to be updated.
#[derive(Clone, Copy, Debug, PartialEq, Eq, Structural)]
pub enum UpdateRate {
    /// A frequency in Hz.
    Hz(u32),
    /// A window of this many frames.
    Frames(u16),
    /// This many windows per device buffer.
    PerBuffer(u16),
}

/// `n / d` rounded to the nearest integer, halves rounded up.
pub open spec fn round_div(n: nat, d: nat) -> nat
    recommends
        d > 0,
{
    ((2 * n + d) / (2 * d)) as nat
}

/// The window size that a rate asks for, before it is checked against the device buffer.
pub open spec fn requested_frames(device: Settings, rate: UpdateRate) -> int {
    match rate {
        UpdateRate::Hz(hz) => round_div(device.sample_hz as nat, hz as nat) as int,
        UpdateRate::Frames(f) => f as int,
        UpdateRate::PerBuffer(n) => device.frames as int / n as int,
    }
}

/// A window that equals the device buffer or is at most half of it.
pub open spec fn schedulable(device_frames: int, window: int) -> bool {
    window == device_frames || 2 * window <= device_frames
}

/// What `window_frames` returns for a device and a rate.
pub open spec fn window_frames_spec(device: Settings, rate: UpdateRate) -> Result<u16, ConfigError> {
    if !device.is_valid() {
        Err(ConfigError::InvalidSettings)
    } else if rate matches UpdateRate::Hz(hz) && hz == 0 {
        Err(ConfigError::ZeroHz)
    } else if rate matches UpdateRate::PerBuffer(n) && (n == 0 || n % 2 != 0) {
        Err(ConfigError::OddDivision(rate->PerBuffer_0))
    } else if requested_frames(device, rate) == 0 {
        Err(ConfigError::EmptyWindow)
    } else if !schedulable(device.frames as int, requested_frames(device, rate)) {
        Err(ConfigError::UnschedulableWindow(
            if requested_frames(device, rate) > u32::MAX { u32::MAX } else {
                requested_frames(device, rate) as u32
            },
        ))
    } else {
        Ok(requested_frames(device, rate) as u16)
    }
}

/// The number of frames in each caller-facing window for a device and a requested rate.
///
/// A frequency asks for `sample_hz / hz` frames, rounded to the nearest integer; a division
/// by an even `n` asks for `frames / n`; a frame count is taken as given. The window must
/// hold at least one frame and either equal the device buffer or be at most half of it.
pub fn window_frames(device: &Settings, rate: UpdateRate) -> (r: Result<u16, ConfigError>)
    ensures
        r == window_frames_spec(*device, rate),
        r is Ok ==> {
            &&& 0 < r->Ok_0 <= device.frames
            &&& schedulable(device.frames as int, r->Ok_0 as int)
            &&& r->Ok_0 == requested_frames(*device, rate)
        },
{
    if !device.valid() {
        return Err(ConfigError::InvalidSettings);
    }
    let requested: u64 = match rate {
        UpdateRate::Hz(hz) => {
            if hz == 0 {
                return Err(ConfigError::ZeroHz);
            }
            let n = device.sample_hz as u64;
            let d = hz as u64;
            (2 * n + d) / (2 * d)
        },
        UpdateRate::Frames(f) => f as u64,
        UpdateRate::PerBuffer(n) => {
            if n == 0 || n % 2 != 0 {
                return Err(ConfigError::OddDivision(n));
            }
            (device.frames / n) as u64
        },
    };
    assert(requested == requested_frames(*device, rate));
    if requested == 0 {
        return Err(ConfigError::EmptyWindow);
    }
    let frames = device.frames as u64;
    if requested != frames && 2 * requested > frames {
        let shown: u32 = if requested > u32::MAX as u64 { u32::MAX } else { requested as u32 };
        return Err(ConfigError::UnschedulableWindow(shown));
    }
    Ok(requested as u16)
}

/// A division of the device buffer by an even `n` no larger than it is accepted and gives
/// windows of exactly `frames / n` frames; `n` of them tile the buffer whenever `n`
/// divides it.
pub proof fn lemma_division_tiles(device: Settings, n: u16)
    requires
        device.is_valid(),
        n > 0,
        n % 2 == 0,
        n <= device.frames,
    ensures
        window_frames_spec(device, UpdateRate::PerBuffer(n)) == Ok::<u16, ConfigError>(
            (device.frames / n) as u16,
        ),
        device.frames % n == 0 ==> (device.frames / n) * n == device.frames,
{
    let f = device.frames as int;
    let k = n as int;
    vstd::arithmetic::div_mod::lemma_fundamental_div_mod(f, k);
    vstd::arithmetic::div_mod::lemma_mod_pos_bound(f, k);
    assert(f / k >= 1) by (nonlinear_arith)
        requires f == k * (f / k) + f % k, 0 <= f % k < k, k <= f;
    assert(2 * (f / k) <= f) by (nonlinear_arith)
        requires f == k * (f / k) + f % k, 0 <= f % k, k >= 2, f / k >= 0;
    if f % k == 0 {
        assert((f / k) * k == f) by (nonlinear_arith) requires f == k * (f / k) + f % k, f % k == 0;
    }
}

/// A frequency whose rounded window is schedulable is accepted, and its window `t` is
/// `sample_hz / hz` rounded to the nearest integer: `hz / sample_hz` of a second per
/// window, within half a frame, so that `-hz < 2 t hz - 2 sample_hz <= hz`.
pub proof fn lemma_hz_window(device: Settings, hz: u32)
    requires
        device.is_valid(),
        hz > 0,
        round_div(device.sample_hz as nat, hz as nat) > 0,
        schedulable(device.frames as int, round_div(device.sample_hz as nat, hz as nat) as int),
    ensures
        window_frames_spec(device, UpdateRate::Hz(hz)) == Ok::<u16, ConfigError>(
            round_div(device.sample_hz as nat, hz as nat) as u16,
        ),
        round_div(device.sample_hz as nat, hz as nat) <= device.frames,
        -(hz as int) < 2 * round_div(device.sample_hz as nat, hz as nat) * hz - 2 * device.sample_hz,
        2 * round_div(device.sample_hz as nat, hz as nat) * hz - 2 * device.sample_hz <= hz,
{
    let n = device.sample_hz as int;
    let d = hz as int;
    let t = round_div(device.sample_hz as nat, hz as nat) as int;
    vstd::arithmetic::div_mod::lemma_fundamental_div_mod(2 * n + d, 2 * d);
    vstd::arithmetic::div_mod::lemma_mod_pos_bound(2 * n + d, 2 * d);
    assert(t == (2 * n + d) / (2 * d));
    assert(-d < 2 * t * d - 2 * n <= d) by (nonlinear_arith)
        requires
            2 * n + d == (2 * d) * t + (2 * n + d) % (2 * d),
            0 <= (2 * n + d) % (2 * d) < 2 * d,
    ;
}

} // verus!
