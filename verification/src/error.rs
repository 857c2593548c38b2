//! What can go wrong while the backend is started.

use vstd::prelude::*;
use vstd::string::*;

verus! {

/// How a child process ended, as the platform reported it.
#[derive(Debug, PartialEq, Eq)]
pub struct ExitReport {
    /// The exit code, where the process ended with one.
    pub code: Option<i32>,
    /// The platform's description of the status.
    pub text: String,
}

/// The mathematical content of an [`ExitReport`].
pub struct ExitReportView {
    pub code: Option<i32>,
    pub text: Seq<char>,
}

impl View for ExitReport {
    type V = ExitReportView;

    open spec fn view(&self) -> ExitReportView {
        ExitReportView { code: self.code, text: self.text@ }
    }
}

impl Clone for ExitReport {
    fn clone(&self) -> (copy: Self)
        ensures
            copy@ == self@,
    {
        ExitReport { code: self.code, text: self.text.clone() }
    }
}

/// Why a spawn attempt did not leave a running backend behind. None of
/// these ends the host application: the backend is then taken to be
/// unreachable.
#[derive(Debug, PartialEq, Eq)]
pub enum SidecarError {
    /// The cache directory could not be created.
    DirectoryCreateFailed { path: String, cause: String },
    /// The log file could not be opened for appending.
    LogOpenFailed { path: String, cause: String },
    /// No candidate executable exists beside the host application.
    ExecutableNotFound,
    /// The operating system refused to start the process.
    SpawnFailed { cause: String },
    /// The process was started and ended within the settle interval.
    SidecarExitedEarly { status: ExitReport },
    /// The guard around the child handle can no longer be taken.
    GuardUnavailable,
}

/// The mathematical content of a [`SidecarError`].
pub enum SidecarErrorView {
    DirectoryCreateFailed { path: Seq<char>, cause: Seq<char> },
    LogOpenFailed { path: Seq<char>, cause: Seq<char> },
    ExecutableNotFound,
    SpawnFailed { cause: Seq<char> },
    SidecarExitedEarly { status: ExitReportView },
    GuardUnavailable,
}

impl SidecarErrorView {
    /// The sentence that describes the error to a person.
    pub open spec fn message(self) -> Seq<char> {
        match self {
            SidecarErrorView::DirectoryCreateFailed { path, cause } => {
                "create desktop cache directory "@ + path + ": "@ + cause
            },
            SidecarErrorView::LogOpenFailed { path, cause } => {
                "open sidecar log "@ + path + ": "@ + cause
            },
            SidecarErrorView::ExecutableNotFound => {
                "desktop backend binary not found near app executable"@
            },
            SidecarErrorView::SpawnFailed { cause } => {
                "spawn backend sidecar failed: "@ + cause
            },
            SidecarErrorView::SidecarExitedEarly { status } => {
                "backend sidecar exited early with status "@ + status.text
            },
            SidecarErrorView::GuardUnavailable => "backend sidecar lock poisoned"@,
        }
    }
}

impl View for SidecarError {
    type V = SidecarErrorView;

    open spec fn view(&self) -> SidecarErrorView {
        match *self {
            SidecarError::DirectoryCreateFailed { path, cause } => {
                SidecarErrorView::DirectoryCreateFailed { path: path@, cause: cause@ }
            },
            SidecarError::LogOpenFailed { path, cause } => {
                SidecarErrorView::LogOpenFailed { path: path@, cause: cause@ }
            },
            SidecarError::ExecutableNotFound => SidecarErrorView::ExecutableNotFound,
            SidecarError::SpawnFailed { cause } => SidecarErrorView::SpawnFailed { cause: cause@ },
            SidecarError::SidecarExitedEarly { status } => {
                SidecarErrorView::SidecarExitedEarly { status: status@ }
            },
            SidecarError::GuardUnavailable => SidecarErrorView::GuardUnavailable,
        }
    }
}

impl Clone for SidecarError {
    fn clone(&self) -> (copy: Self)
        ensures
            copy@ == self@,
    {
        match self {
            SidecarError::DirectoryCreateFailed { path, cause } => {
                SidecarError::DirectoryCreateFailed { path: path.clone(), cause: cause.clone() }
            },
            SidecarError::LogOpenFailed { path, cause } => {
                SidecarError::LogOpenFailed { path: path.clone(), cause: cause.clone() }
            },
            SidecarError::ExecutableNotFound => SidecarError::ExecutableNotFound,
            SidecarError::SpawnFailed { cause } => SidecarError::SpawnFailed {
                cause: cause.clone(),
            },
            SidecarError::SidecarExitedEarly { status } => SidecarError::SidecarExitedEarly {
                status: status.clone(),
            },
            SidecarError::GuardUnavailable => SidecarError::GuardUnavailable,
        }
    }
}

impl SidecarError {
    /// The sentence that describes the error to a person.
    pub fn message(&self) -> (text: String)
        ensures
            text@ == self@.message(),
    {
        match self {
            SidecarError::DirectoryCreateFailed { path, cause } => {
                let mut text = "create desktop cache directory ".to_owned();
                text.append(path.as_str());
                text.append(": ");
                text.append(cause.as_str());
                text
            },
            SidecarError::LogOpenFailed { path, cause } => {
                let mut text = "open sidecar log ".to_owned();
                text.append(path.as_str());
                text.append(": ");
                text.append(cause.as_str());
                text
            },
            SidecarError::ExecutableNotFound => {
                "desktop backend binary not found near app executable".to_owned()
            },
            SidecarError::SpawnFailed { cause } => {
                let mut text = "spawn backend sidecar failed: ".to_owned();
                text.append(cause.as_str());
                text
            },
            SidecarError::SidecarExitedEarly { status } => {
                let mut text = "backend sidecar exited early with status ".to_owned();
                text.append(status.text.as_str());
                text
            },
            SidecarError::GuardUnavailable => "backend sidecar lock poisoned".to_owned(),
        }
    }
}

} // verus!
