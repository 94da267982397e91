use vstd::prelude::*;
use vstd::string::*;

verus! {

/// Errors of the capture lifecycle. Configuration and resource failures are
/// returned synchronously by `start`; lifecycle misuse is reported through
/// the state variants; a read failure inside the loop becomes the
/// session's terminal error.
#[derive(Debug, Clone)]
pub enum CaptureError {
    /// The named interface could not be opened or was not found.
    InterfaceOpenError(String),
    /// A frame could not be read from the live handle.
    CaptureFailure(String),
    /// The filter expression was rejected by the capture layer.
    InvalidFilter(String),
    /// A capture session is already active.
    AlreadyRunning,
    /// The operation needs an active or starting session and none exists.
    NotRunning,
    /// An error that fits no other variant.
    Unknown,
}

/// The one-line description of a capture error.
pub open spec fn spec_describe(e: CaptureError) -> Seq<char> {
    match e {
        CaptureError::InterfaceOpenError(s) => "Interface open error: "@ + s@,
        CaptureError::CaptureFailure(s) => "Capture failure: "@ + s@,
        CaptureError::InvalidFilter(s) => "Invalid filter: "@ + s@,
        CaptureError::AlreadyRunning => "Capture already running"@,
        CaptureError::NotRunning => "No capture is running"@,
        CaptureError::Unknown => "Unknown error"@,
    }
}

impl CaptureError {
    /// Renders the error as one line.
    pub fn describe(&self) -> (s: String)
        ensures
            s@ == spec_describe(*self),
    {
        match self {
            CaptureError::InterfaceOpenError(m) => {
                let mut s = String::from_str("Interface open error: ");
                s.append(m.as_str());
                s
            },
            CaptureError::CaptureFailure(m) => {
                let mut s = String::from_str("Capture failure: ");
                s.append(m.as_str());
                s
            },
            CaptureError::InvalidFilter(m) => {
                let mut s = String::from_str("Invalid filter: ");
                s.append(m.as_str());
                s
            },
            CaptureError::AlreadyRunning => String::from_str("Capture already running"),
            CaptureError::NotRunning => String::from_str("No capture is running"),
            CaptureError::Unknown => String::from_str("Unknown error"),
        }
    }
}

} // verus!
