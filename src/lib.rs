//! Event streams over an audio device whose buffer size the driver fixes, at a cadence
//! that the caller chooses.

pub mod clock;
pub mod error;
pub mod event;
pub mod rate;
pub mod ring;
pub mod settings;
pub mod stream;
pub mod utils;

pub use error::{ConfigError, DeviceOp, Error};
pub use event::{Action, Event, NextEvent, Phase, Report, SoundStreamBuilder};
pub use rate::{window_frames, UpdateRate};
pub use ring::RingAccumulator;
pub use settings::{Channels, Frames, SampleHz, Settings};
pub use stream::{BufferFrequency, CallbackResult, CallbackTiming, LastEvent};
pub use utils::take_front;
