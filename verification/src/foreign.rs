//! The vocabulary shared with the program that talks to the native driver:
//! what the library asks for, what the driver answers, and how an answer
//! becomes a typed result.
use vstd::prelude::*;

verus! {

/// The driver's answer to one native call.
#[derive(Clone, Copy, Debug, PartialEq, Eq, Structural)]
pub struct Reply {
    /// The value that the native function returned. Zero reports success.
    pub status: i32,
    /// The operating system's error code as read right after the call.
    pub os_code: i32,
}

/// A device setting that the driver can be asked to change.
#[derive(Clone, Copy, Debug, PartialEq, Eq, Structural)]
pub enum Setting {
    TunerGainMode,
    TunerGain,
    FreqCorrection,
    CenterFreq,
    SampleRate,
    ResetBuffer,
}

/// One native call on an open device, with its arguments.
#[derive(Clone, Copy, Debug, PartialEq, Eq, Structural)]
pub enum Operation {
    /// Chooses automatic (0) or manual (1) tuner gain.
    SetTunerGainMode { mode: i32 },
    /// Sets the tuner gain, in tenths of a dB.
    SetTunerGain { tenths_db: i32 },
    /// Sets the frequency correction, in parts per million.
    SetFreqCorrection { ppm: i32 },
    /// Tunes to a center frequency, in Hz.
    SetCenterFreq { hz: u32 },
    /// Sets the sample rate, in Hz.
    SetSampleRate { hz: u32 },
    /// Discards what the device has buffered.
    ResetBuffer,
    /// Reads the tuner gain back, in tenths of a dB.
    GetTunerGain,
    /// Streams samples until cancelled, in blocks of `block_size` bytes,
    /// through `buffers` native buffers (zero selects the driver's default).
    ReadAsync { buffers: u32, block_size: u32 },
    /// Asks a running stream to stop.
    CancelAsync,
    /// Releases the native resource.
    Close,
}

/// A native call that the embedding program is to make.
#[derive(Clone, Copy, Debug, PartialEq, Eq, Structural)]
pub struct Request {
    /// The native resource that the call is made on.
    pub handle: usize,
    pub operation: Operation,
}

/// Why an operation failed. Every variant carries the value that the native
/// function returned and the operating system's error code.
#[derive(Clone, Copy, Debug, PartialEq, Eq, Structural)]
pub enum Error {
    /// The device at `index` could not be opened.
    DeviceOpen { index: u32, status: i32, os_code: i32 },
    /// The driver refused to change `setting`.
    Configuration { setting: Setting, status: i32, os_code: i32 },
    /// The streaming read ended with an error, or never started.
    AsyncRead { status: i32, os_code: i32 },
    /// The driver refused to cancel the stream.
    Cancellation { status: i32, os_code: i32 },
    /// The native teardown failed.
    Close { status: i32, os_code: i32 },
    /// The identification strings of the device at `index` could not be read.
    Enumeration { index: u32, status: i32, os_code: i32 },
}

impl Reply {
    /// Whether the driver reported success.
    pub open spec fn is_success(&self) -> bool {
        self.status == 0
    }

    /// Whether the driver reported success.
    pub fn succeeded(&self) -> (r: bool)
        ensures
            r == self.is_success(),
    {
        self.status == 0
    }
}

impl Setting {
    /// The name of the native operation that changes this setting.
    pub open spec fn spec_name(&self) -> Seq<char> {
        match self {
            Setting::TunerGainMode => "set_tuner_gain_mode"@,
            Setting::TunerGain => "set_tuner_gain"@,
            Setting::FreqCorrection => "set_freq_correction"@,
            Setting::CenterFreq => "set_center_freq"@,
            Setting::SampleRate => "set_sample_rate"@,
            Setting::ResetBuffer => "reset_buffer"@,
        }
    }

    /// The name of the native operation that changes this setting.
    pub fn name(&self) -> (r: &'static str)
        ensures
            r@ == self.spec_name(),
    {
        match self {
            Setting::TunerGainMode => "set_tuner_gain_mode",
            Setting::TunerGain => "set_tuner_gain",
            Setting::FreqCorrection => "set_freq_correction",
            Setting::CenterFreq => "set_center_freq",
            Setting::SampleRate => "set_sample_rate",
            Setting::ResetBuffer => "reset_buffer",
        }
    }
}

impl Operation {
    /// The setting that this operation changes, if it changes one.
    pub open spec fn spec_setting(&self) -> Option<Setting> {
        match self {
            Operation::SetTunerGainMode { .. } => Some(Setting::TunerGainMode),
            Operation::SetTunerGain { .. } => Some(Setting::TunerGain),
            Operation::SetFreqCorrection { .. } => Some(Setting::FreqCorrection),
            Operation::SetCenterFreq { .. } => Some(Setting::CenterFreq),
            Operation::SetSampleRate { .. } => Some(Setting::SampleRate),
            Operation::ResetBuffer => Some(Setting::ResetBuffer),
            _ => None,
        }
    }

    /// The error that a failure of this operation is reported as. Reading
    /// the gain back has none: whatever comes back is the reading.
    pub open spec fn failure(&self, reply: Reply) -> Option<Error> {
        match self {
            Operation::GetTunerGain => None,
            Operation::ReadAsync { .. } => Some(
                Error::AsyncRead { status: reply.status, os_code: reply.os_code },
            ),
            Operation::CancelAsync => Some(
                Error::Cancellation { status: reply.status, os_code: reply.os_code },
            ),
            Operation::Close => Some(
                Error::Close { status: reply.status, os_code: reply.os_code },
            ),
            Operation::SetTunerGainMode { .. } => Some(
                Error::Configuration {
                    setting: Setting::TunerGainMode,
                    status: reply.status,
                    os_code: reply.os_code,
                },
            ),
            Operation::SetTunerGain { .. } => Some(
                Error::Configuration {
                    setting: Setting::TunerGain,
                    status: reply.status,
                    os_code: reply.os_code,
                },
            ),
            Operation::SetFreqCorrection { .. } => Some(
                Error::Configuration {
                    setting: Setting::FreqCorrection,
                    status: reply.status,
                    os_code: reply.os_code,
                },
            ),
            Operation::SetCenterFreq { .. } => Some(
                Error::Configuration {
                    setting: Setting::CenterFreq,
                    status: reply.status,
                    os_code: reply.os_code,
                },
            ),
            Operation::SetSampleRate { .. } => Some(
                Error::Configuration {
                    setting: Setting::SampleRate,
                    status: reply.status,
                    os_code: reply.os_code,
                },
            ),
            Operation::ResetBuffer => Some(
                Error::Configuration {
                    setting: Setting::ResetBuffer,
                    status: reply.status,
                    os_code: reply.os_code,
                },
            ),
        }
    }

    /// The setting that this operation changes, if it changes one.
    pub fn setting(&self) -> (r: Option<Setting>)
        ensures
            r == self.spec_setting(),
    {
        match self {
            Operation::SetTunerGainMode { .. } => Some(Setting::TunerGainMode),
            Operation::SetTunerGain { .. } => Some(Setting::TunerGain),
            Operation::SetFreqCorrection { .. } => Some(Setting::FreqCorrection),
            Operation::SetCenterFreq { .. } => Some(Setting::CenterFreq),
            Operation::SetSampleRate { .. } => Some(Setting::SampleRate),
            Operation::ResetBuffer => Some(Setting::ResetBuffer),
            _ => None,
        }
    }
}

impl Request {
    /// What the operation comes to once the driver has answered: success on
    /// a zero status, and for the one operation that has no failure;
    /// otherwise the error that names the operation and carries both codes.
    pub open spec fn spec_outcome(&self, reply: Reply) -> Result<(), Error> {
        if reply.is_success() {
            Ok(())
        } else {
            match self.operation.failure(reply) {
                Some(error) => Err(error),
                None => Ok(()),
            }
        }
    }

    /// What the driver reports in answer to a query: the status of its
    /// reply. Other operations have only an outcome.
    pub open spec fn spec_reading(&self, reply: Reply) -> Option<i32> {
        if self.operation is GetTunerGain {
            Some(reply.status)
        } else {
            None
        }
    }

    /// Reads the value that the driver reported in answer to a query: for
    /// the tuner gain, tenths of a dB.
    pub fn reading(&self, reply: Reply) -> (r: Option<i32>)
        ensures
            r == self.spec_reading(reply),
    {
        match self.operation {
            Operation::GetTunerGain => Some(reply.status),
            _ => None,
        }
    }

    /// Turns the driver's answer to this request into a typed result.
    pub fn outcome(&self, reply: Reply) -> (r: Result<(), Error>)
        ensures
            r == self.spec_outcome(reply),
    {
        if reply.succeeded() {
            return Ok(());
        }
        let status: i32 = reply.status;
        let os_code: i32 = reply.os_code;
        match self.operation {
            Operation::GetTunerGain => Ok(()),
            Operation::ReadAsync { .. } => Err(Error::AsyncRead { status, os_code }),
            Operation::CancelAsync => Err(Error::Cancellation { status, os_code }),
            Operation::Close => Err(Error::Close { status, os_code }),
            _ => match self.operation.setting() {
                Some(setting) => Err(Error::Configuration { setting, status, os_code }),
                None => Ok(()),
            },
        }
    }
}

} // verus!
