//! Errors of radio operations.
use vstd::prelude::*;
use vstd::string::StringExecFns;

use crate::text::{decimal, int_text};

verus! {

/// Error type of all radio operations.
#[derive(Debug, PartialEq, Eq)]
pub enum SdrError {
    /// No RX888-family device found at the requested USB index.
    DeviceNotFound,
    /// Device is present but not running at SuperSpeed (USB 3.0).
    NotSuperSpeed,
    /// USB device or interface could not be opened or claimed.
    DeviceOpenFailed(String),
    /// Installed firmware version does not match the required version.
    FirmwareVersionMismatch {
        expected_major: u8,
        expected_minor: u8,
        got_major: u8,
        got_minor: u8,
    },
    /// A low-level USB transfer or register operation failed.
    CommunicationError(String),
    /// The requested parameter change is not allowed while the device is streaming.
    DeviceRunning,
    /// A stream was started while one is already in progress.
    AlreadyRunning,
    /// A supplied parameter value is out of the allowed range.
    InvalidParameter(String),
}

impl SdrError {
    /// What the error says.
    pub open spec fn text(self) -> Seq<char> {
        match self {
            SdrError::DeviceNotFound => "Device not found"@,
            SdrError::NotSuperSpeed => "Device not in SuperSpeed mode"@,
            SdrError::DeviceOpenFailed(cause) => "Failed to open device: "@ + cause@,
            SdrError::FirmwareVersionMismatch {
                expected_major,
                expected_minor,
                got_major,
                got_minor,
            } => "Firmware version mismatch: expected "@ + decimal(expected_major as int) + "."@
                + decimal(expected_minor as int) + ", got "@ + decimal(got_major as int) + "."@
                + decimal(got_minor as int),
            SdrError::CommunicationError(cause) => "USB communication error: "@ + cause@,
            SdrError::DeviceRunning => "Cannot change setting while device is running"@,
            SdrError::AlreadyRunning =>
                "Async read already in progress; call read_cancel() first"@,
            SdrError::InvalidParameter(cause) => "Invalid parameter: "@ + cause@,
        }
    }

    /// Says what went wrong.
    pub fn message(&self) -> (message: String)
        ensures
            message@ == self.text(),
    {
        match self {
            SdrError::DeviceNotFound => String::from_str("Device not found"),
            SdrError::NotSuperSpeed => String::from_str("Device not in SuperSpeed mode"),
            SdrError::DeviceOpenFailed(cause) => String::from_str(
                "Failed to open device: ",
            ).concat(cause.as_str()),
            SdrError::FirmwareVersionMismatch {
                expected_major,
                expected_minor,
                got_major,
                got_minor,
            } => {
                let mut message = String::from_str("Firmware version mismatch: expected ");
                message.append(int_text(*expected_major as i64).as_str());
                message.append(".");
                message.append(int_text(*expected_minor as i64).as_str());
                message.append(", got ");
                message.append(int_text(*got_major as i64).as_str());
                message.append(".");
                message.append(int_text(*got_minor as i64).as_str());
                message
            },
            SdrError::CommunicationError(cause) => String::from_str(
                "USB communication error: ",
            ).concat(cause.as_str()),
            SdrError::DeviceRunning => String::from_str(
                "Cannot change setting while device is running",
            ),
            SdrError::AlreadyRunning => String::from_str(
                "Async read already in progress; call read_cancel() first",
            ),
            SdrError::InvalidParameter(cause) => String::from_str("Invalid parameter: ").concat(
                cause.as_str(),
            ),
        }
    }
}

/// Each error says its own sentence, with the whole of its cause or numbers.
pub proof fn errors_say_their_own_sentence(cause: String, a: u8, b: u8, c: u8, d: u8)
    ensures
        SdrError::DeviceNotFound.text() == "Device not found"@,
        SdrError::NotSuperSpeed.text() == "Device not in SuperSpeed mode"@,
        SdrError::DeviceOpenFailed(cause).text() == "Failed to open device: "@ + cause@,
        (SdrError::FirmwareVersionMismatch {
            expected_major: a,
            expected_minor: b,
            got_major: c,
            got_minor: d,
        }).text() == "Firmware version mismatch: expected "@ + decimal(a as int) + "."@ + decimal(
            b as int,
        ) + ", got "@ + decimal(c as int) + "."@ + decimal(d as int),
        SdrError::CommunicationError(cause).text() == "USB communication error: "@ + cause@,
        SdrError::DeviceRunning.text() == "Cannot change setting while device is running"@,
        SdrError::AlreadyRunning.text()
            == "Async read already in progress; call read_cancel() first"@,
        SdrError::InvalidParameter(cause).text() == "Invalid parameter: "@ + cause@,
{
}

} // verus!
