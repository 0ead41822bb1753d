use std::collections::VecDeque;

use sound_stream::clock::UpdateClock;
use sound_stream::stream::{blocking_frames, callback_settings, frames_per_buffer, resolve_channels};
use sound_stream::{
    take_front, window_frames, BufferFrequency, CallbackTiming, ConfigError,
    DeviceOp, RingAccumulator, Settings, UpdateRate,
};

#[test]
fn settings_constructors() {
    let s = Settings::new(48000, 128, 1);
    assert_eq!((s.sample_hz, s.frames, s.channels), (48000, 128, 1));
    let c = Settings::cd_quality();
    assert_eq!((c.sample_hz, c.frames, c.channels), (44100, 256, 2));
    assert_eq!(Settings::default(), c);
    assert_eq!(c.buffer_size(), 512);
    assert_eq!(Settings::new(1, 65535, 65535).buffer_size(), 65535 * 65535);
    assert!(c.valid());
    assert!(!Settings::new(0, 1, 1).valid());
}

#[test]
fn take_front_takes_in_order() {
    let mut d: VecDeque<i32> = (1..=5).collect();
    let front = take_front(&mut d, 3);
    assert_eq!(front, vec![1, 2, 3]);
    assert_eq!(d.iter().copied().collect::<Vec<_>>(), vec![4, 5]);
    assert_eq!(take_front(&mut d, 0), Vec::<i32>::new());
    assert_eq!(take_front(&mut d, 2), vec![4, 5]);
    assert!(d.is_empty());
}

#[test]
fn ring_appends_and_takes() {
    let mut r: RingAccumulator<u8> = RingAccumulator::with_capacity(6);
    assert_eq!(r.capacity_remaining(), 6);
    r.append(vec![1, 2, 3]);
    r.append(vec![4, 5]);
    assert_eq!(r.len(), 5);
    assert_eq!(r.capacity_remaining(), 1);
    assert_eq!(r.take_front(2), vec![1, 2]);
    assert_eq!(r.take_front(3), vec![3, 4, 5]);
    assert_eq!(r.len(), 0);
    assert_eq!(r.capacity(), 6);
}

#[test]
fn window_from_division() {
    let s = Settings::cd_quality();
    assert_eq!(window_frames(&s, UpdateRate::PerBuffer(4)), Ok(64));
    assert_eq!(window_frames(&s, UpdateRate::PerBuffer(2)), Ok(128));
    assert_eq!(window_frames(&s, UpdateRate::PerBuffer(3)), Err(ConfigError::OddDivision(3)));
    assert_eq!(window_frames(&s, UpdateRate::PerBuffer(0)), Err(ConfigError::OddDivision(0)));
    assert_eq!(window_frames(&s, UpdateRate::PerBuffer(512)), Err(ConfigError::EmptyWindow));
}

#[test]
fn window_from_frequency_tiles_the_buffer() {
    let s = Settings::cd_quality();
    // 44100 / (4 * 44100 / 256) = 64 frames: four windows per buffer.
    assert_eq!(window_frames(&s, UpdateRate::Hz(689)), Ok(64));
    assert_eq!(window_frames(&s, UpdateRate::Hz(441)), Ok(100));
    // 44100 / 172 = 256.4: the device buffer itself.
    assert_eq!(window_frames(&s, UpdateRate::Hz(172)), Ok(256));
    // 44100 / 200 = 220.5, between half a buffer and a whole one.
    assert_eq!(window_frames(&s, UpdateRate::Hz(200)), Err(ConfigError::UnschedulableWindow(221)));
    assert_eq!(window_frames(&s, UpdateRate::Hz(0)), Err(ConfigError::ZeroHz));
    assert_eq!(window_frames(&s, UpdateRate::Hz(100_000)), Err(ConfigError::EmptyWindow));
    assert_eq!(
        window_frames(&s, UpdateRate::Hz(1)),
        Err(ConfigError::UnschedulableWindow(44100))
    );
}

#[test]
fn window_from_frames() {
    let s = Settings::cd_quality();
    assert_eq!(window_frames(&s, UpdateRate::Frames(256)), Ok(256));
    assert_eq!(window_frames(&s, UpdateRate::Frames(128)), Ok(128));
    assert_eq!(window_frames(&s, UpdateRate::Frames(1)), Ok(1));
    assert_eq!(window_frames(&s, UpdateRate::Frames(129)), Err(ConfigError::UnschedulableWindow(129)));
    assert_eq!(window_frames(&s, UpdateRate::Frames(0)), Err(ConfigError::EmptyWindow));
    assert_eq!(
        window_frames(&Settings::new(44100, 0, 2), UpdateRate::Frames(1)),
        Err(ConfigError::InvalidSettings)
    );
}

#[test]
fn buffer_frames_from_frequency() {
    assert_eq!(frames_per_buffer(None, 44100), Ok(0));
    assert_eq!(frames_per_buffer(Some(BufferFrequency::Frames(512)), 44100), Ok(512));
    assert_eq!(frames_per_buffer(Some(BufferFrequency::Hz(100)), 44100), Ok(441));
    assert_eq!(frames_per_buffer(Some(BufferFrequency::Hz(200)), 44100), Ok(221));
    assert_eq!(frames_per_buffer(Some(BufferFrequency::Hz(0)), 44100), Err(ConfigError::ZeroHz));
    assert_eq!(frames_per_buffer(Some(BufferFrequency::Hz(1)), u32::MAX), Ok(u32::MAX));
}

#[test]
fn channels_are_capped_by_the_device() {
    assert_eq!(resolve_channels(None, 8), 2);
    assert_eq!(resolve_channels(None, 1), 1);
    assert_eq!(resolve_channels(Some(6), 8), 6);
    assert_eq!(resolve_channels(Some(6), 4), 4);
}

#[test]
fn callback_timing_measures_between_calls() {
    let mut t = CallbackTiming::new();
    assert_eq!(t.delta(1_000), 0);
    assert_eq!(t.delta(1_500), 500);
    assert_eq!(t.delta(1_400), 0);
    assert_eq!(t.delta(2_400), 1_000);
}

#[test]
fn callback_settings_clamp_frames() {
    assert_eq!(callback_settings(44100, 256, 2), Settings::new(44100, 256, 2));
    assert_eq!(callback_settings(44100, 70_000, 1), Settings::new(44100, 65535, 1));
}

#[test]
fn update_clock_measures_elapsed_time() {
    let mut c = UpdateClock::starting_at(100);
    assert_eq!(c.elapsed_to(350), 250);
    assert_eq!(c.elapsed_to(300), 0);
    assert_eq!(c.elapsed_to(1_300), 1_000);
    let mut live = UpdateClock::start();
    let _ = live.tick();
}

#[test]
fn descriptions_name_the_problem() {
    assert!(DeviceOp::Read.name().contains("reading"));
    assert!(ConfigError::OddDivision(3).description().contains("multiple of two"));
}

#[test]
fn blocking_buffer_frames() {
    assert_eq!(blocking_frames(None, 44100), Ok(256));
    assert_eq!(blocking_frames(Some(BufferFrequency::Frames(512)), 44100), Ok(512));
    assert_eq!(blocking_frames(Some(BufferFrequency::Hz(100)), 44100), Ok(441));
    assert_eq!(blocking_frames(Some(BufferFrequency::Frames(0)), 44100), Err(ConfigError::BufferSize(0)));
    assert_eq!(blocking_frames(Some(BufferFrequency::Hz(1)), 96000), Err(ConfigError::BufferSize(96000)));
    assert_eq!(blocking_frames(Some(BufferFrequency::Hz(0)), 44100), Err(ConfigError::ZeroHz));
}

#[test]
fn error_texts_are_exact() {
    assert_eq!(DeviceOp::Write.name(), "writing to the output stream");
    assert_eq!(
        ConfigError::BufferSize(0).description(),
        "a device buffer must hold between 1 and 65535 frames"
    );
}
