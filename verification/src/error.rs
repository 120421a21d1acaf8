//! The failures that threshold operations report.

use crate::protocol::Node;
use crate::sysfs::{node_path, path_text};
use vstd::prelude::*;
use vstd::string::*;

verus! {

/// Why the host could not read or write a file.
#[derive(Debug, Clone, PartialEq, Eq)]
pub enum IoFailure {
    /// The operating system denied access.
    PermissionDenied,
    /// The file does not exist.
    NotFound,
    /// Any other failure, with the operating system's description of it.
    Other(String),
}

/// What `set_threshold`, the operation that writes start first, reports in
/// words of its own.
#[derive(Debug, Clone, PartialEq, Eq)]
pub enum StartFirstError {
    /// A threshold is above 100.
    OutOfRange,
    /// Both thresholds are in range, but start is not below stop.
    StartNotLower,
    /// The battery's directory does not exist.
    BatteryNotPresent,
    /// A threshold file was opened, but the write to it failed.
    WriteFailed,
}

/// What `set`, the operation that writes under every name, reports in words
/// of its own.
#[derive(Debug, Clone, PartialEq, Eq)]
pub enum EveryNameError {
    /// Both thresholds are in range, but start is not below stop.
    StartNotLess,
    /// The file of this node, for the battery of this name, could not be
    /// opened.
    OpenFailed(Node, String),
    /// A threshold file was opened, but the write to it failed.
    WriteFailed,
}

/// Everything that can end a threshold operation early.
#[derive(Debug, Clone, PartialEq, Eq)]
pub enum ChargeError {
    /// The power-supply class directory is absent: the platform lacks the feature.
    Unsupported,
    /// No directory exists for the battery of this name.
    BatteryNotFound(String),
    /// The requested pair breaks `start < stop <= 100`.
    InvalidThreshold,
    /// The host failed to read or write a file.
    Io(IoFailure),
    /// A file of the kernel held something other than a percentage.
    MalformedKernelValue,
    /// The mains adapter reports that it is offline.
    AcOffline,
    /// An error of the operation that writes start first.
    StartFirst(StartFirstError),
    /// An error of the operation that writes under every name.
    EveryName(EveryNameError),
}

/// The text that `Debug` formatting gives for a string: the string between
/// double quotes, with the escapes that the standard library chooses.
pub uninterp spec fn debug_text(text: Seq<char>) -> Seq<char>;

/// Formats `text` with the standard library's `Debug` implementation for
/// `str` (`format!("{:?}", text)`). Trusted: the contract only gives that
/// result its name, `debug_text`.
#[verifier::external_body]
fn debug_quoted(text: &str) -> (quoted: String)
    ensures
        quoted@ == debug_text(text@),
{
    format!("{:?}", text)
}

impl ChargeError {
    /// What `message` says, character by character.
    pub open spec fn message_text(self) -> Seq<char> {
        match self {
            ChargeError::Unsupported => "unsupported platform"@,
            ChargeError::BatteryNotFound(name) => "battery not found: "@ + debug_text(name@),
            ChargeError::InvalidThreshold =>
                "thresholds must be numerical [0-100], and start < stop"@,
            ChargeError::Io(IoFailure::PermissionDenied) =>
                "permission denied, try running the same command with sudo privileges"@,
            ChargeError::Io(IoFailure::NotFound) =>
                "battery thresholds not found \"/sys/class/power_supply/\""@,
            ChargeError::Io(IoFailure::Other(detail)) =>
                "failed to write charge threshold: "@ + detail@,
            ChargeError::MalformedKernelValue => "malformed value read from the kernel"@,
            ChargeError::AcOffline => "AC power is offline"@,
            ChargeError::StartFirst(StartFirstError::OutOfRange) =>
                "thresholds must be valid numbers between 0-100"@,
            ChargeError::StartFirst(StartFirstError::StartNotLower) =>
                "start threshold must be lower than stop threshold"@,
            ChargeError::StartFirst(StartFirstError::BatteryNotPresent) => "battery not present"@,
            ChargeError::StartFirst(StartFirstError::WriteFailed) =>
                "failed to write charge threshold"@,
            ChargeError::EveryName(EveryNameError::StartNotLess) =>
                "Error: start threshold must be less than stop threshold"@,
            ChargeError::EveryName(EveryNameError::OpenFailed(node, battery)) =>
                "Failed to open "@ + path_text(node, battery@),
            ChargeError::EveryName(EveryNameError::WriteFailed) => "Failed to write threshold"@,
        }
    }

    /// The line to show the operator for this error.
    pub fn message(&self) -> (text: String)
        ensures
            text@ == self.message_text(),
    {
        match self {
            ChargeError::Unsupported => String::from_str("unsupported platform"),
            ChargeError::BatteryNotFound(name) => {
                let quoted = debug_quoted(name.as_str());
                String::from_str("battery not found: ").concat(quoted.as_str())
            },
            ChargeError::InvalidThreshold => String::from_str(
                "thresholds must be numerical [0-100], and start < stop",
            ),
            ChargeError::Io(IoFailure::PermissionDenied) => String::from_str(
                "permission denied, try running the same command with sudo privileges",
            ),
            ChargeError::Io(IoFailure::NotFound) => String::from_str(
                "battery thresholds not found \"/sys/class/power_supply/\"",
            ),
            ChargeError::Io(IoFailure::Other(detail)) => String::from_str(
                "failed to write charge threshold: ",
            ).concat(detail.as_str()),
            ChargeError::MalformedKernelValue => String::from_str(
                "malformed value read from the kernel",
            ),
            ChargeError::AcOffline => String::from_str("AC power is offline"),
            ChargeError::StartFirst(StartFirstError::OutOfRange) => String::from_str(
                "thresholds must be valid numbers between 0-100",
            ),
            ChargeError::StartFirst(StartFirstError::StartNotLower) => String::from_str(
                "start threshold must be lower than stop threshold",
            ),
            ChargeError::StartFirst(StartFirstError::BatteryNotPresent) => String::from_str(
                "battery not present",
            ),
            ChargeError::StartFirst(StartFirstError::WriteFailed) => String::from_str(
                "failed to write charge threshold",
            ),
            ChargeError::EveryName(EveryNameError::StartNotLess) => String::from_str(
                "Error: start threshold must be less than stop threshold",
            ),
            ChargeError::EveryName(EveryNameError::OpenFailed(node, battery)) => {
                let path = node_path(*node, battery.as_str());
                String::from_str("Failed to open ").concat(path.as_str())
            },
            ChargeError::EveryName(EveryNameError::WriteFailed) => String::from_str(
                "Failed to write threshold",
            ),
        }
    }
}

} // verus!
