//! Startup errors and their diagnostics.

use vstd::prelude::*;

verus! {

/// The construction step that the host could not complete.
#[derive(Clone, Copy, Debug, PartialEq, Eq, Structural)]
pub enum FailedStep {
    /// The window system could not create the window.
    WindowCreation,
    /// The driver rejected the instance: a missing extension, a missing layer
    /// or no driver at all.
    InstanceCreation,
}

/// Why startup was given up. None of these is retried.
#[derive(Clone, Copy, Debug, PartialEq, Eq, Structural)]
pub enum StartupError {
    /// No platform-specific surface extension is known for the target.
    UnsupportedPlatform,
    /// A construction step failed on the host.
    StartupFailure(FailedStep),
}

impl StartupError {
    /// The diagnostic that names the failed step.
    pub open spec fn diagnostic(self) -> Seq<char> {
        match self {
            StartupError::UnsupportedPlatform => "Unsupported platform."@,
            StartupError::StartupFailure(FailedStep::WindowCreation) => "Failed to create window."@,
            StartupError::StartupFailure(FailedStep::InstanceCreation) => "Failed to create Vulkan Instance!"@,
        }
    }

    /// The diagnostic as text for the host to print.
    pub fn message(&self) -> (text: String)
        ensures
            text@ == self.diagnostic(),
    {
        match self {
            StartupError::UnsupportedPlatform => "Unsupported platform.".to_owned(),
            StartupError::StartupFailure(FailedStep::WindowCreation) => "Failed to create window.".to_owned(),
            StartupError::StartupFailure(FailedStep::InstanceCreation) => "Failed to create Vulkan Instance!".to_owned(),
        }
    }
}

} // verus!
