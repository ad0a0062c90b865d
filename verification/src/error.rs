//! Failures that the operations report, and the text shown for each.

use vstd::prelude::*;

verus! {

/// Which of the two capture operations ran.
#[derive(Clone, Copy, Debug, PartialEq, Eq)]
pub enum CaptureKind {
    Button,
    Axis,
}

/// Every way an operation can fail. None of them ends the process.
#[derive(Debug, PartialEq, Eq)]
pub enum Error {
    /// The device could not be opened; holds the cause.
    DeviceOpen(String),
    /// The device's name could not be read; holds the cause.
    NameLookup(String),
    /// No qualifying event arrived before the deadline.
    CaptureTimeout(CaptureKind),
    /// The stored mappings could not be decoded; holds the cause.
    Decode(String),
    /// No mapping is stored for the controller: capture one first.
    NoMapping,
    /// A directory or file could not be created, read or written; holds
    /// the cause. No operation of this library touches the file system: the
    /// variant is for its callers, which do.
    Io(String),
}

pub enum ErrorView {
    DeviceOpen(Seq<char>),
    NameLookup(Seq<char>),
    CaptureTimeout(CaptureKind),
    Decode(Seq<char>),
    NoMapping,
    Io(Seq<char>),
}

impl View for Error {
    type V = ErrorView;

    open spec fn view(&self) -> ErrorView {
        match self {
            Error::DeviceOpen(cause) => ErrorView::DeviceOpen(cause@),
            Error::NameLookup(cause) => ErrorView::NameLookup(cause@),
            Error::CaptureTimeout(kind) => ErrorView::CaptureTimeout(*kind),
            Error::Decode(cause) => ErrorView::Decode(cause@),
            Error::NoMapping => ErrorView::NoMapping,
            Error::Io(cause) => ErrorView::Io(cause@),
        }
    }
}

impl ErrorView {
    /// The text shown to the user.
    pub open spec fn message(self) -> Seq<char> {
        match self {
            ErrorView::DeviceOpen(cause) => "Failed to open device: "@ + cause,
            ErrorView::NameLookup(cause) => "Failed to read controller name: "@ + cause,
            ErrorView::CaptureTimeout(CaptureKind::Button) =>
                "Timeout: No button pressed within 30 seconds"@,
            ErrorView::CaptureTimeout(CaptureKind::Axis) =>
                "Timeout: No axis moved within 30 seconds"@,
            ErrorView::Decode(cause) => cause,
            ErrorView::NoMapping =>
                "No configuration found for this controller. Please create one first."@,
            ErrorView::Io(cause) => cause,
        }
    }

    /// Whether the failure tells the caller to go and capture a mapping,
    /// rather than reporting a fault.
    pub open spec fn is_missing_mapping(self) -> bool {
        self is NoMapping
    }
}

impl Error {
    /// The text shown to the user. It holds the cause where there is one.
    pub fn message(&self) -> (text: String)
        ensures
            text@ == self@.message(),
    {
        match self {
            Error::DeviceOpen(cause) => String::from_str("Failed to open device: ").concat(
                cause.as_str(),
            ),
            Error::NameLookup(cause) => String::from_str(
                "Failed to read controller name: ",
            ).concat(cause.as_str()),
            Error::CaptureTimeout(CaptureKind::Button) => String::from_str(
                "Timeout: No button pressed within 30 seconds",
            ),
            Error::CaptureTimeout(CaptureKind::Axis) => String::from_str(
                "Timeout: No axis moved within 30 seconds",
            ),
            Error::Decode(cause) => cause.clone(),
            Error::NoMapping => String::from_str(
                "No configuration found for this controller. Please create one first.",
            ),
            Error::Io(cause) => cause.clone(),
        }
    }

    /// Whether the failure tells the caller to go and capture a mapping,
    /// rather than reporting a fault.
    pub fn is_missing_mapping(&self) -> (missing: bool)
        ensures
            missing == self@.is_missing_mapping(),
    {
        match self {
            Error::NoMapping => true,
            _ => false,
        }
    }
}

} // verus!
