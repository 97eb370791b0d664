//! The errors of the library and the text each one is reported with.

use vstd::prelude::*;
use crate::text::concat2;

verus! {

/// Everything that can go wrong. Errors that come from I/O or from JSON handling
/// carry the text that the underlying error was reported with.
#[derive(Debug)]
pub enum BtError {
    Backend(String),
    DeviceNotFound(String),
    Network(String),
    Protocol(String),
    Serialization(String),
    Config(String),
    Permission(String),
    UnsupportedPlatform,
}

/// The text an error is reported with.
pub open spec fn error_text(e: BtError) -> Seq<char> {
    match e {
        BtError::Backend(m) => "Bluetooth backend error: "@ + m@,
        BtError::DeviceNotFound(m) => "Device not found: "@ + m@,
        BtError::Network(m) => "Network error: "@ + m@,
        BtError::Protocol(m) => "Protocol error: "@ + m@,
        BtError::Serialization(m) => "Serialization error: "@ + m@,
        BtError::Config(m) => "Configuration error: "@ + m@,
        BtError::Permission(m) => "Permission denied: "@ + m@,
        BtError::UnsupportedPlatform => "Not supported on this platform"@,
    }
}

impl BtError {
    /// The text this error is reported with.
    pub fn message(&self) -> (r: String)
        ensures
            r@ == error_text(*self),
    {
        match self {
            BtError::Backend(m) => concat2("Bluetooth backend error: ", m.as_str()),
            BtError::DeviceNotFound(m) => concat2("Device not found: ", m.as_str()),
            BtError::Network(m) => concat2("Network error: ", m.as_str()),
            BtError::Protocol(m) => concat2("Protocol error: ", m.as_str()),
            BtError::Serialization(m) => concat2("Serialization error: ", m.as_str()),
            BtError::Config(m) => concat2("Configuration error: ", m.as_str()),
            BtError::Permission(m) => concat2("Permission denied: ", m.as_str()),
            BtError::UnsupportedPlatform => String::from_str("Not supported on this platform"),
        }
    }
}

} // verus!
