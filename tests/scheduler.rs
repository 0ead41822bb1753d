use sound_stream::event::SoundStream;
use sound_stream::{
    Action, ConfigError, DeviceOp, Error, Event, LastEvent, NextEvent, Phase, Report, Settings,
    UpdateRate,
};

/// A device whose reads yield consecutive integers and whose writes are recorded.
struct SimDevice {
    counter: i32,
    channels: u32,
    read_chunk: u32,
    write_avail: u32,
    polls: usize,
    fail_on_poll: Option<usize>,
    reads: Vec<i32>,
    writes: Vec<i32>,
}

impl SimDevice {
    fn new(channels: u32, read_chunk: u32, write_avail: u32) -> SimDevice {
        SimDevice {
            counter: 0,
            channels,
            read_chunk,
            write_avail,
            polls: 0,
            fail_on_poll: None,
            reads: Vec::new(),
            writes: Vec::new(),
        }
    }
}

/// Drives the stream until it emits an event or ends; failures are collected.
fn next_event(
    s: &mut SoundStream<i32, i32>,
    dev: &mut SimDevice,
    errors: &mut Vec<Error>,
) -> Option<Event<i32>> {
    let mut report = Report::Next;
    loop {
        match s.step(report) {
            Action::QueryReadAvailable => {
                dev.polls += 1;
                report = if dev.fail_on_poll == Some(dev.polls) {
                    Report::Failed(DeviceOp::ReadAvailable, "device unplugged".to_string())
                } else {
                    Report::Available(dev.read_chunk)
                };
            }
            Action::Read(k) => {
                let mut v = Vec::new();
                for _ in 0..(k * dev.channels) {
                    v.push(dev.counter);
                    dev.counter += 1;
                }
                dev.reads.extend(v.iter().copied());
                report = Report::Samples(v);
            }
            Action::QueryWriteAvailable => report = Report::Available(dev.write_avail),
            Action::Write(v, frames) => {
                assert_eq!(v.len() as u32, frames * dev.channels);
                dev.writes.extend(v);
                report = Report::Written;
            }
            Action::Emit(e) => return Some(e),
            Action::Fail(e) => {
                errors.push(e);
                return None;
            }
            Action::Finished => return None,
        }
    }
}

fn kind(e: &Event<i32>) -> NextEvent {
    match e {
        Event::In(_, _) => NextEvent::In,
        Event::Out(_) => NextEvent::Out,
        Event::Update(_) => NextEvent::Update,
    }
}

fn duplex(rate: Option<UpdateRate>) -> SoundStream<i32, i32> {
    let b = SoundStream::<i32, i32>::new();
    let b = match rate {
        Some(UpdateRate::PerBuffer(n)) => b.updates_per_buffer(n),
        Some(UpdateRate::Frames(f)) => b.update_frames(f),
        Some(UpdateRate::Hz(h)) => b.update_hz(h),
        None => b,
    };
    b.run(0).ok().unwrap()
}

#[test]
fn division_by_odd_count_is_a_configuration_error() {
    let r = SoundStream::<i32, i32>::new().updates_per_buffer(3).run(0);
    assert!(matches!(r, Err(Error::Configuration(ConfigError::OddDivision(3)))));
}

#[test]
fn division_by_four_of_256_frames_gives_64() {
    let s = duplex(Some(UpdateRate::PerBuffer(4)));
    assert_eq!(s.input_settings().frames, 64);
    assert_eq!(s.output_settings().frames, 64);
    assert_eq!(s.input_settings().channels, 2);
    assert_eq!(s.input_settings().sample_hz, 44100);
}

#[test]
fn default_rate_is_one_window_per_buffer() {
    let s = duplex(None);
    assert_eq!(s.input_settings(), Settings::cd_quality());
    assert_eq!(s.next_event(), NextEvent::In);
    assert_eq!(s.phase(), Phase::Idle);
    assert_eq!(s.last_event(), None);
}

#[test]
fn builder_settings_are_used() {
    let st = Settings::new(48000, 512, 1);
    let s = SoundStream::<i32, i32>::new().settings(st).update_frames(128).run(0).ok().unwrap();
    assert_eq!(s.input_settings(), Settings::new(48000, 128, 1));
}

#[test]
fn builder_rejects_unschedulable_window() {
    let r = SoundStream::<i32, i32>::new().update_frames(200).run(0);
    assert!(matches!(r, Err(Error::Configuration(ConfigError::UnschedulableWindow(200)))));
}

#[test]
fn builder_rejects_zero_hz() {
    let r = SoundStream::<i32, i32>::new().update_hz(0).run(0);
    assert!(matches!(r, Err(Error::Configuration(ConfigError::ZeroHz))));
}

#[test]
fn builder_rejects_invalid_settings() {
    let r = SoundStream::<i32, i32>::new().settings(Settings::new(44100, 256, 0)).run(0);
    assert!(matches!(r, Err(Error::Configuration(ConfigError::InvalidSettings))));
}

#[test]
fn builder_update_hz_rounds_window() {
    // 44100 / 441 = 100 frames.
    let s = duplex(Some(UpdateRate::Hz(441)));
    assert_eq!(s.input_settings().frames, 100);
}

#[test]
fn sides_must_share_rate_and_buffer() {
    let a = Settings::new(44100, 256, 2);
    let b = Settings::new(48000, 256, 2);
    let r = SoundStream::<i32, i32>::with_sides(Some(a), Some(b), UpdateRate::Frames(256), 0);
    assert!(matches!(r, Err(ConfigError::InvalidSettings)));
    let r = SoundStream::<i32, i32>::with_sides(None, None, UpdateRate::Frames(256), 0);
    assert!(matches!(r, Err(ConfigError::InvalidSettings)));
    let c = Settings::new(44100, 256, 1);
    let s = SoundStream::<i32, i32>::with_sides(Some(a), Some(c), UpdateRate::PerBuffer(2), 0)
        .ok()
        .unwrap();
    assert_eq!(s.input_settings(), Settings::new(44100, 128, 2));
    assert_eq!(s.output_settings(), Settings::new(44100, 128, 1));
}

#[test]
fn input_only_events_alternate_with_updates() {
    let st = Settings::cd_quality();
    let mut s = SoundStream::<i32, i32>::with_sides(Some(st), None, UpdateRate::Frames(256), 0)
        .ok()
        .unwrap();
    let mut dev = SimDevice::new(2, 256, 0);
    let mut errors = Vec::new();
    for i in 0..20 {
        let e = next_event(&mut s, &mut dev, &mut errors).unwrap();
        let want = if i % 2 == 0 { NextEvent::In } else { NextEvent::Update };
        assert_eq!(kind(&e), want);
        if let Event::In(v, settings) = e {
            assert_eq!(v.len(), 512);
            assert_eq!(settings, st);
        }
    }
    assert!(errors.is_empty());
    assert_eq!(s.last_event(), Some(LastEvent::Update));
}

#[test]
fn output_only_events_alternate_with_updates() {
    let st = Settings::cd_quality();
    let mut s = SoundStream::<i32, i32>::with_sides(None, Some(st), UpdateRate::Frames(256), 0)
        .ok()
        .unwrap();
    let mut dev = SimDevice::new(2, 0, 256);
    let mut errors = Vec::new();
    for i in 0..20 {
        let e = next_event(&mut s, &mut dev, &mut errors).unwrap();
        let want = if i % 2 == 0 { NextEvent::Out } else { NextEvent::Update };
        assert_eq!(kind(&e), want);
        if let Event::Out(settings) = e {
            assert_eq!(settings, st);
            assert_eq!(s.output_window().len(), 512);
            assert_eq!(s.last_event(), Some(LastEvent::Out));
        }
    }
    assert!(errors.is_empty());
}

#[test]
fn duplex_cycle_is_in_out_update() {
    let mut s = duplex(Some(UpdateRate::PerBuffer(2)));
    let mut dev = SimDevice::new(2, 128, 256);
    let mut errors = Vec::new();
    let cycle = [NextEvent::In, NextEvent::Out, NextEvent::Update];
    for i in 0..30 {
        let e = next_event(&mut s, &mut dev, &mut errors).unwrap();
        assert_eq!(kind(&e), cycle[i % 3]);
    }
}

#[test]
fn input_waits_until_a_window_is_read() {
    // A window of 256 frames read 10 frames at a time needs 26 polls.
    let st = Settings::cd_quality();
    let mut s = SoundStream::<i32, i32>::with_sides(Some(st), None, UpdateRate::Frames(256), 0)
        .ok()
        .unwrap();
    let mut dev = SimDevice::new(2, 10, 0);
    let mut errors = Vec::new();
    let e = next_event(&mut s, &mut dev, &mut errors).unwrap();
    assert_eq!(kind(&e), NextEvent::In);
    assert_eq!(dev.polls, 26);
    assert_eq!(s.pending_input_len(), 2 * (260 - 256));
}

#[test]
fn no_sample_is_lost_or_repeated() {
    // Windows of 64 frames against device reads of 100 frames: the two never align.
    let mut s = duplex(Some(UpdateRate::PerBuffer(4)));
    let mut dev = SimDevice::new(2, 100, 256);
    let mut errors = Vec::new();
    let mut delivered: Vec<i32> = Vec::new();
    let mut filled: Vec<i32> = Vec::new();
    let mut next_fill = 1000;
    for _ in 0..600 {
        match next_event(&mut s, &mut dev, &mut errors).unwrap() {
            Event::In(v, _) => delivered.extend(v),
            Event::Out(_) => {
                for x in s.output_window().iter_mut() {
                    *x = next_fill;
                    filled.push(next_fill);
                    next_fill += 1;
                }
            }
            Event::Update(_) => {}
        }
    }
    assert!(errors.is_empty());
    assert!(delivered.len() > 1000);
    assert_eq!(delivered.len() + s.pending_input_len(), dev.reads.len());
    assert_eq!(&dev.reads[..delivered.len()], &delivered[..]);
    assert!(dev.writes.len() > 1000);
    assert!(dev.writes.len() <= filled.len());
    assert_eq!(&filled[..dev.writes.len()], &dev.writes[..]);
}

#[test]
fn rings_stay_within_capacity_over_a_long_run() {
    let mut s = duplex(Some(UpdateRate::PerBuffer(2)));
    let mut dev = SimDevice::new(2, 256, 256);
    let mut errors = Vec::new();
    for _ in 0..10_000 {
        let e = next_event(&mut s, &mut dev, &mut errors).unwrap();
        if let Event::Out(_) = e {
            for x in s.output_window().iter_mut() {
                *x = 1;
            }
        }
        assert!(s.pending_input_len() <= s.input_ring_capacity());
        assert!(s.pending_output_len() <= s.output_ring_capacity());
    }
    assert!(s.input_ring_capacity() >= 2 * 512);
    assert!(errors.is_empty());
}

#[test]
fn overproduction_is_held_back_by_the_input_ring() {
    // The device offers far more than the ring holds; reads are limited to the room left.
    let st = Settings::cd_quality();
    let mut s = SoundStream::<i32, i32>::with_sides(Some(st), None, UpdateRate::PerBuffer(4), 0)
        .ok()
        .unwrap();
    let mut dev = SimDevice::new(2, 100_000, 0);
    let mut errors = Vec::new();
    for _ in 0..50 {
        next_event(&mut s, &mut dev, &mut errors).unwrap();
        assert!(s.pending_input_len() <= s.input_ring_capacity());
    }
    assert_eq!(s.input_ring_capacity(), 2048);
}

#[test]
fn read_failure_on_fifth_poll_ends_after_four_events() {
    let st = Settings::cd_quality();
    let mut s = SoundStream::<i32, i32>::with_sides(Some(st), None, UpdateRate::Frames(256), 0)
        .ok()
        .unwrap();
    let mut dev = SimDevice::new(2, 256, 0);
    dev.fail_on_poll = Some(5);
    let mut errors = Vec::new();
    let mut events = 0;
    while let Some(_) = next_event(&mut s, &mut dev, &mut errors) {
        events += 1;
    }
    assert_eq!(events, 4);
    assert_eq!(errors.len(), 1);
    assert!(matches!(&errors[0], Error::Device(DeviceOp::ReadAvailable, d) if d == "device unplugged"));
    assert!(s.is_exhausted());
    for _ in 0..3 {
        assert!(next_event(&mut s, &mut dev, &mut errors).is_none());
    }
    assert_eq!(errors.len(), 1);
}

#[test]
fn unexpected_report_ends_the_stream() {
    let mut s = duplex(None);
    match s.step(Report::Written) {
        Action::Fail(Error::UnexpectedReport) => {}
        _ => panic!("expected a failure"),
    }
    assert!(matches!(s.step(Report::Next), Action::Finished));
}

#[test]
fn oversized_read_is_refused() {
    let st = Settings::cd_quality();
    let mut s = SoundStream::<i32, i32>::with_sides(Some(st), None, UpdateRate::Frames(256), 0)
        .ok()
        .unwrap();
    assert!(matches!(s.step(Report::Next), Action::QueryReadAvailable));
    assert!(matches!(s.step(Report::Available(4)), Action::Read(4)));
    let too_many = vec![0; 5000];
    assert!(matches!(s.step(Report::Samples(too_many)), Action::Fail(Error::UnexpectedReport)));
}

#[test]
fn write_failure_is_reported_with_its_operation() {
    let st = Settings::cd_quality();
    let mut s = SoundStream::<i32, i32>::with_sides(None, Some(st), UpdateRate::Frames(256), 0)
        .ok()
        .unwrap();
    assert!(matches!(s.step(Report::Next), Action::QueryWriteAvailable));
    let r = s.step(Report::Failed(DeviceOp::WriteAvailable, "gone".to_string()));
    assert!(matches!(r, Action::Fail(Error::Device(DeviceOp::WriteAvailable, _))));
    assert!(matches!(s.step(Report::Next), Action::Finished));
}

#[test]
fn output_window_starts_silent() {
    let st = Settings::new(44100, 8, 1);
    let mut s = SoundStream::<i32, i32>::with_sides(None, Some(st), UpdateRate::Frames(8), 7)
        .ok()
        .unwrap();
    let mut dev = SimDevice::new(1, 0, 8);
    let mut errors = Vec::new();
    let e = next_event(&mut s, &mut dev, &mut errors).unwrap();
    assert_eq!(kind(&e), NextEvent::Out);
    assert_eq!(s.output_window().to_vec(), vec![7; 8]);
}

#[test]
fn output_is_passed_over_while_the_device_takes_nothing() {
    let st = Settings::new(44100, 8, 1);
    let mut s = SoundStream::<i32, i32>::with_sides(None, Some(st), UpdateRate::Frames(8), 0)
        .ok()
        .unwrap();
    let mut dev = SimDevice::new(1, 0, 0);
    let mut errors = Vec::new();
    let mut kinds = Vec::new();
    for _ in 0..8 {
        kinds.push(kind(&next_event(&mut s, &mut dev, &mut errors).unwrap()));
    }
    // Two windows fill the ring past one device buffer; after that only updates come.
    assert_eq!(
        kinds,
        vec![
            NextEvent::Out,
            NextEvent::Update,
            NextEvent::Out,
            NextEvent::Update,
            NextEvent::Update,
            NextEvent::Update,
            NextEvent::Update,
            NextEvent::Update
        ]
    );
    assert_eq!(s.pending_output_len(), 16);
    assert!(dev.writes.is_empty());
}

#[test]
fn ring_capacities_are_twice_a_buffer_or_the_reservation() {
    let s = duplex(None);
    assert_eq!(s.input_ring_capacity(), 2048);
    assert_eq!(s.output_ring_capacity(), 2048);
    let big = Settings::new(44100, 2048, 2);
    let mono = Settings::new(44100, 2048, 1);
    let s = SoundStream::<i32, i32>::with_sides(Some(big), Some(mono), UpdateRate::PerBuffer(2), 0)
        .ok()
        .unwrap();
    assert_eq!(s.input_ring_capacity(), 8192);
    assert_eq!(s.output_ring_capacity(), 4096);
    assert_eq!(s.input_device(), big);
    assert_eq!(s.output_device(), mono);
}

#[test]
fn frequency_windows_lie_within_half_a_frame() {
    // 44100 / 689 = 64.006: four windows of 64 frames tile the 256-frame buffer.
    let s = duplex(Some(UpdateRate::Hz(689)));
    assert_eq!(s.input_settings().frames, 64);
    // 44100 / 1000 = 44.1 rounds to 44.
    let s = duplex(Some(UpdateRate::Hz(1000)));
    assert_eq!(s.input_settings().frames, 44);
    let t = 44i64;
    assert!((2 * t * 1000 - 2 * 44100).abs() <= 1000);
}

#[test]
fn updates_measure_time_forward() {
    let started = std::time::Instant::now();
    let st = Settings::cd_quality();
    let mut s = SoundStream::<i32, i32>::with_sides(Some(st), None, UpdateRate::Frames(256), 0)
        .ok()
        .unwrap();
    let mut dev = SimDevice::new(2, 256, 0);
    let mut errors = Vec::new();
    let mut total: u64 = 0;
    for _ in 0..10 {
        if let Event::Update(ns) = next_event(&mut s, &mut dev, &mut errors).unwrap() {
            total += ns;
        }
    }
    assert!(total as u128 <= started.elapsed().as_nanos());
}
