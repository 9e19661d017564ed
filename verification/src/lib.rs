//! Control, streaming and lifecycle logic for an RTL-SDR receiver.
//!
//! The crate never touches the native driver itself. Each operation is split
//! in two: the library says which native call is to be made (a [`Request`]),
//! the embedding program makes it and hands the driver's answer (a [`Reply`])
//! back, and the library turns that answer into a typed result. Every
//! decision in between is proved against its contract.
pub mod bridge;
pub mod cancel;
pub mod device;
pub mod enumerate;
pub mod foreign;
pub mod lifecycle;
pub mod options;
pub mod stream;

pub use bridge::{AsyncClosureReader, BridgeError, CallbackBridge};
pub use cancel::CancellationController;
pub use device::Device;
pub use enumerate::{get_device, get_devices, DeviceInfo, UsbStrings};
pub use foreign::{Error, Operation, Reply, Request, Setting};
pub use stream::Capture;
pub use options::{
    configuration, parse_auto_int, parse_infinite_int, require_devices, TextError, AUTO_GAIN,
    INFINITE_SAMPLES,
};
