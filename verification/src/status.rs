//! Outcome of one attempt to center a window, and the line that reports it.

use vstd::prelude::*;

verus! {

/// How the previous attempt ended. The value is carried into the next prompt
/// and has no other effect.
#[derive(Clone, Copy, Debug, PartialEq, Eq, Structural)]
pub enum LastOperationStatus {
    /// The window was moved.
    Success,
    /// The user declined to move the window that was detected.
    CancelledByUser,
    /// No foreground window could be resolved after the click.
    ForegroundResolutionFailed,
    /// The title length came back as zero together with an error.
    TitleLengthQueryFailed,
    /// Fetching the title text copied nothing.
    TitleFetchFailed,
    /// The work area of the hosting monitor could not be read.
    MonitorInfoFailed,
    /// The compositor did not report the extended frame bounds.
    ExtendedFrameQueryFailed,
    /// The window manager did not report the window rectangle.
    WindowRectQueryFailed,
    /// The command that moves the window reported failure.
    PlacementFailed,
}

impl LastOperationStatus {
    /// The status line of each outcome, ending in an empty line.
    pub open spec fn text(self) -> Seq<char> {
        match self {
            Self::Success => "Successfully centered.\r\n\r\n"@,
            Self::CancelledByUser => "Operation was cancelled by user.\r\n\r\n"@,
            Self::ForegroundResolutionFailed => "GetForegroundWindow has failed.\r\n\r\n"@,
            Self::TitleLengthQueryFailed => "GetWindowTextLength has failed.\r\n\r\n"@,
            Self::TitleFetchFailed => "GetWindowText has failed.\r\n\r\n"@,
            Self::MonitorInfoFailed => "GetMonitorInfo has failed.\r\n\r\n"@,
            Self::ExtendedFrameQueryFailed => "DwmGetWindowAttribute has failed.\r\n\r\n"@,
            Self::WindowRectQueryFailed => "GetWindowRect has failed.\r\n\r\n"@,
            Self::PlacementFailed => "SetWindowPos has failed.\r\n\r\n"@,
        }
    }

    /// The status line shown at the top of the next prompt.
    pub fn as_str(self) -> (s: &'static str)
        ensures
            s@ == self.text(),
    {
        match self {
            Self::Success => "Successfully centered.\r\n\r\n",
            Self::CancelledByUser => "Operation was cancelled by user.\r\n\r\n",
            Self::ForegroundResolutionFailed => "GetForegroundWindow has failed.\r\n\r\n",
            Self::TitleLengthQueryFailed => "GetWindowTextLength has failed.\r\n\r\n",
            Self::TitleFetchFailed => "GetWindowText has failed.\r\n\r\n",
            Self::MonitorInfoFailed => "GetMonitorInfo has failed.\r\n\r\n",
            Self::ExtendedFrameQueryFailed => "DwmGetWindowAttribute has failed.\r\n\r\n",
            Self::WindowRectQueryFailed => "GetWindowRect has failed.\r\n\r\n",
            Self::PlacementFailed => "SetWindowPos has failed.\r\n\r\n",
        }
    }
}

} // verus!
