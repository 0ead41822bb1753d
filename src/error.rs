use vstd::prelude::*;

verus! {

/// Why a requested update cadence cannot be scheduled.
#[derive(Clone, Copy, Debug, PartialEq, Eq, Structural)]
pub enum ConfigError {
    /// The device settings hold a zero rate, buffer size or channel count.
    InvalidSettings,
    /// An update frequency of zero Hz was requested.
    ZeroHz,
    /// A buffer division that is zero or odd was requested.
    OddDivision(u16),
    /// The update window would hold no frames.
    EmptyWindow,
    /// The update window lies strictly between half the device buffer and the whole of it.
    UnschedulableWindow(u32),
    /// A device buffer of this many frames is empty or larger than a frame count holds.
    BufferSize(u32),
}

/// The device operation that failed.
#[derive(Clone, Copy, Debug, PartialEq, Eq, Structural)]
pub enum DeviceOp {
    Open,
    Start,
    ReadAvailable,
    Read,
    WriteAvailable,
    Write,
    Close,
}

/// A failure of the stream: a bad configuration, found before the device is opened, or a
/// failure reported by the device.
#[derive(Clone, Debug)]
pub enum Error {
    Configuration(ConfigError),
    Device(DeviceOp, String),
    /// The driver reported something other than what the stream had asked for.
    UnexpectedReport,
}

impl DeviceOp {
    /// A short name of the operation.
    pub fn name(&self) -> (r: &'static str)
        ensures
            r@ == match *self {
                DeviceOp::Open => "opening the stream"@,
                DeviceOp::Start => "starting the stream"@,
                DeviceOp::ReadAvailable => "requesting the frames available for reading"@,
                DeviceOp::Read => "reading from the input stream"@,
                DeviceOp::WriteAvailable => "requesting the frames available for writing"@,
                DeviceOp::Write => "writing to the output stream"@,
                DeviceOp::Close => "closing the stream"@,
            },
    {
        match self {
            DeviceOp::Open => "opening the stream",
            DeviceOp::Start => "starting the stream",
            DeviceOp::ReadAvailable => "requesting the frames available for reading",
            DeviceOp::Read => "reading from the input stream",
            DeviceOp::WriteAvailable => "requesting the frames available for writing",
            DeviceOp::Write => "writing to the output stream",
            DeviceOp::Close => "closing the stream",
        }
    }
}

impl ConfigError {
    /// A description of the configuration error.
    pub fn description(&self) -> (r: &'static str)
        ensures
            r@ == match *self {
                ConfigError::InvalidSettings => "sample rate, frames and channels must be positive"@,
                ConfigError::ZeroHz => "the update frequency must be greater than zero"@,
                ConfigError::OddDivision(_) => "the buffer may only be divided by a multiple of two"@,
                ConfigError::EmptyWindow => "the update window must hold at least one frame"@,
                ConfigError::UnschedulableWindow(_) => {
                    "the update window must equal the device buffer or be at most half of it"@
                },
                ConfigError::BufferSize(_) => "a device buffer must hold between 1 and 65535 frames"@,
            },
    {
        match self {
            ConfigError::InvalidSettings => "sample rate, frames and channels must be positive",
            ConfigError::ZeroHz => "the update frequency must be greater than zero",
            ConfigError::OddDivision(_) => "the buffer may only be divided by a multiple of two",
            ConfigError::EmptyWindow => "the update window must hold at least one frame",
            ConfigError::UnschedulableWindow(_) => {
                "the update window must equal the device buffer or be at most half of it"
            },
            ConfigError::BufferSize(_) => "a device buffer must hold between 1 and 65535 frames",
        }
    }
}

} // verus!
