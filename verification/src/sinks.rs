//! Where the backend's two output streams go.

use crate::config::ExecutionMode;
use crate::paths::{log_file, log_file_of};
use vstd::prelude::*;
use vstd::string::*;

verus! {

/// The destination of one output stream of the child process.
#[derive(Debug, PartialEq, Eq)]
pub enum SinkTarget {
    /// The stream is discarded.
    Null,
    /// The stream is appended to `file`, which is created if it is absent,
    /// after `directory` and every missing directory above it were created.
    /// Nothing already in the file is lost.
    Append { directory: String, file: String },
}

/// The mathematical content of a [`SinkTarget`].
pub enum SinkTargetView {
    Null,
    Append { directory: Seq<char>, file: Seq<char> },
}

impl View for SinkTarget {
    type V = SinkTargetView;

    open spec fn view(&self) -> SinkTargetView {
        match *self {
            SinkTarget::Null => SinkTargetView::Null,
            SinkTarget::Append { directory, file } => SinkTargetView::Append {
                directory: directory@,
                file: file@,
            },
        }
    }
}

/// The destination of either stream: in development the one log file in
/// the cache directory, in production nowhere.
pub open spec fn sink_for(mode: ExecutionMode, cache_dir: Seq<char>) -> SinkTargetView {
    match mode {
        ExecutionMode::Development => SinkTargetView::Append {
            directory: cache_dir,
            file: log_file_of(cache_dir),
        },
        ExecutionMode::Production => SinkTargetView::Null,
    }
}

/// Decides where standard output and standard error of the child go.
///
/// Both get the same destination, each through a handle of its own, so
/// that in development what either stream writes ends up in one file.
pub fn resolve_sinks(mode: ExecutionMode, cache_dir: &str) -> (targets: (SinkTarget, SinkTarget))
    ensures
        targets.0@ == sink_for(mode, cache_dir@),
        targets.1@ == sink_for(mode, cache_dir@),
{
    match mode {
        ExecutionMode::Development => (
            SinkTarget::Append { directory: cache_dir.to_owned(), file: log_file(cache_dir) },
            SinkTarget::Append { directory: cache_dir.to_owned(), file: log_file(cache_dir) },
        ),
        ExecutionMode::Production => (SinkTarget::Null, SinkTarget::Null),
    }
}

} // verus!
