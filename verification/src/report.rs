//! The data model: what the runtime observed when it waited on one stage.
//!
//! The surrounding runtime owns the live process and thread handles; by the
//! time this crate is consulted, each stage has been reduced to a plain
//! description of how it ended.

use vstd::prelude::*;

verus! {

/// How an external process ended: a normal exit with a status code, or a
/// termination by a signal (no exit code available).
#[derive(Clone, Copy, Debug, PartialEq, Eq, Structural)]
pub enum StageStatus {
    Exited(i32),
    Signaled(i32),
}

impl StageStatus {
    /// A process succeeded exactly when it exited normally with code zero.
    pub open spec fn success(self) -> bool {
        self == StageStatus::Exited(0)
    }

    pub fn is_success(&self) -> (b: bool)
        ensures
            b == self.success(),
    {
        match self {
            StageStatus::Exited(code) => *code == 0,
            StageStatus::Signaled(_) => false,
        }
    }
}

/// A failure surfaced by a pipeline.
#[derive(Debug)]
pub enum CmdError {
    /// An external process exited non-zero or was signaled.
    Execution { label: String, status: StageStatus },
    /// A background task crashed; `detail` describes the crash.
    Task { label: String, detail: String },
    /// An underlying stream or wait error, propagated unchanged.
    Io { detail: String },
}

impl CmdError {
    /// The label of the stage an error identifies, where it carries one.
    pub open spec fn label_of(self) -> Option<String> {
        match self {
            CmdError::Execution { label, .. } => Some(label),
            CmdError::Task { label, .. } => Some(label),
            CmdError::Io { .. } => None,
        }
    }
}

/// What blocking on an external process produced: its exit status, or a
/// wait-level stream error (with its description).
#[derive(Debug)]
pub enum ProcWait {
    Status(StageStatus),
    WaitErr(String),
}

/// What joining a background task produced: the task ran to completion and
/// returned its own result, or it crashed (with a description of the crash).
#[derive(Debug)]
pub enum ThreadWait {
    Finished(Result<(), CmdError>),
    Panicked(String),
}

/// How one waited-on stage ended, by stage kind.
#[derive(Debug)]
pub enum StageOutcome {
    /// An external process.
    Proc(ProcWait),
    /// A background task on a worker thread.
    Thread(ThreadWait),
    /// A stage whose work had already completed; waiting it cannot fail.
    Sync,
}

/// One waited-on stage: its label (for diagnostics and error messages), its
/// ignore-error flag, and how it ended.
#[derive(Debug)]
pub struct StageReport {
    pub label: String,
    pub ignore_error: bool,
    pub outcome: StageOutcome,
}

/// The three stage kinds, before any waiting: an external process, a
/// background task on a worker thread, or a stage whose work had already
/// completed.
#[derive(Clone, Copy, Debug, PartialEq, Eq, Structural)]
pub enum StageKind {
    Proc,
    Thread,
    Sync,
}

/// Only process and already-completed stages support handing the caller a
/// live readable stream: a background task's output exists only behind its
/// worker thread. Invoking the streaming wait against a background-task
/// terminal stage is a defect in pipeline construction, not a recoverable
/// error.
pub fn streaming_supported(kind: StageKind) -> (b: bool)
    ensures
        b == (kind != StageKind::Thread),
{
    match kind {
        StageKind::Thread => false,
        StageKind::Proc => true,
        StageKind::Sync => true,
    }
}

} // verus!
