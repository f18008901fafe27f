//! The capturing wait: what the terminal stage's captured bytes and outcome
//! decide, and the text-returning wait over a whole pipeline.
//!
//! Capture is used only for the terminal stage, so its failures always
//! escalate, whatever the pipefail policy.

use vstd::prelude::*;

use crate::report::CmdError;
use crate::report::StageReport;
use crate::report::StageStatus;
use crate::report::ThreadWait;
use crate::text::capture_to_text;
use crate::text::lossy_of;
use crate::text::strip_last_newline;
use crate::verdict::check_rest;
use crate::verdict::rest_verdict;

verus! {

/// What blocking on an external process while capturing its primary output
/// produced: its exit status together with every captured byte.
#[derive(Debug)]
pub struct ProcCapture {
    pub status: StageStatus,
    pub bytes: Vec<u8>,
}

/// How the terminal stage ended under a capturing wait, by stage kind. Each
/// stream-level error carries its description.
#[derive(Debug)]
pub enum CaptureOutcome {
    /// An external process: the capturing wait either produced an exit
    /// status and the captured bytes, or failed at the stream level.
    Proc(Result<ProcCapture, String>),
    /// A background task: its output stream was read to completion first
    /// (streaming, independent of task completion), then the task joined.
    Thread { read: Result<Vec<u8>, String>, task: ThreadWait },
    /// An already-completed stage: whatever ready bytes a read produced.
    Sync(Result<Vec<u8>, String>),
}

/// What a capturing wait on the terminal stage decides.
///
/// - A process stage surfaces `Execution` when it ended unsuccessfully and
///   is not ignore-error; otherwise its captured bytes are returned.
/// - A background-task stage surfaces a read error first; then a crash as
///   `Task`, and a failure the task itself returned unchanged; only then are
///   the read bytes returned.
/// - An already-completed stage fails only on a lower-level read error.
pub open spec fn capture_verdict(label: String, ignore_error: bool, c: CaptureOutcome) -> Result<
    Vec<u8>,
    CmdError,
> {
    match c {
        CaptureOutcome::Proc(pr) => match pr {
            Err(detail) => Err(CmdError::Io { detail }),
            Ok(pc) => if !ignore_error && !pc.status.success() {
                Err(CmdError::Execution { label, status: pc.status })
            } else {
                Ok(pc.bytes)
            },
        },
        CaptureOutcome::Thread { read, task } => match read {
            Err(detail) => Err(CmdError::Io { detail }),
            Ok(bytes) => match task {
                ThreadWait::Panicked(detail) => Err(CmdError::Task { label, detail }),
                ThreadWait::Finished(res) => match res {
                    Err(e) => Err(e),
                    Ok(()) => Ok(bytes),
                },
            },
        },
        CaptureOutcome::Sync(read) => match read {
            Err(detail) => Err(CmdError::Io { detail }),
            Ok(bytes) => Ok(bytes),
        },
    }
}

/// Decide what a capturing wait on the terminal stage surfaces: the captured
/// bytes, or the failure. Consumes the outcome: a stage is waited at most
/// once.
pub fn check_capture(label: String, ignore_error: bool, c: CaptureOutcome) -> (v: Result<
    Vec<u8>,
    CmdError,
>)
    ensures
        v == capture_verdict(label, ignore_error, c),
{
    match c {
        CaptureOutcome::Proc(pr) => match pr {
            Err(detail) => Err(CmdError::Io { detail }),
            Ok(pc) => {
                if !ignore_error && !pc.status.is_success() {
                    Err(CmdError::Execution { label, status: pc.status })
                } else {
                    Ok(pc.bytes)
                }
            },
        },
        CaptureOutcome::Thread { read, task } => match read {
            Err(detail) => Err(CmdError::Io { detail }),
            Ok(bytes) => match task {
                ThreadWait::Panicked(detail) => Err(CmdError::Task { label, detail }),
                ThreadWait::Finished(res) => match res {
                    Err(e) => Err(e),
                    Ok(()) => Ok(bytes),
                },
            },
        },
        CaptureOutcome::Sync(read) => match read {
            Err(detail) => Err(CmdError::Io { detail }),
            Ok(bytes) => Ok(bytes),
        },
    }
}

/// The text-returning wait over a whole pipeline: the terminal stage's
/// capture decides first; on its success the non-terminal stages are waited
/// in reverse insertion order and the first failure among them wins;
/// otherwise the capture's own failure is surfaced (the non-terminal stages
/// are still best-effort waited, their errors discarded). On overall success
/// the captured bytes become text: decoded lossily, one trailing line
/// terminator stripped.
pub open spec fn capture_text_verdict(
    label: String,
    ignore_error: bool,
    c: CaptureOutcome,
    rest: Seq<StageReport>,
    pipefail: bool,
) -> Result<Seq<char>, CmdError> {
    match capture_verdict(label, ignore_error, c) {
        Err(e) => Err(e),
        Ok(bytes) => match rest_verdict(rest, pipefail) {
            Err(e) => Err(e),
            Ok(()) => Ok(strip_last_newline(lossy_of(bytes@))),
        },
    }
}

/// The text-returning wait over a fully waited pipeline: decide the
/// consolidated outcome from the terminal stage's capture and the remaining
/// stages' reports.
pub fn wait_all_capture(
    label: String,
    ignore_error: bool,
    c: CaptureOutcome,
    rest: Vec<StageReport>,
    pipefail: bool,
) -> (v: Result<String, CmdError>)
    ensures
        match v {
            Ok(s) => capture_text_verdict(label, ignore_error, c, rest@, pipefail) == Ok::<
                Seq<char>,
                CmdError,
            >(s@),
            Err(e) => capture_text_verdict(label, ignore_error, c, rest@, pipefail) == Err::<
                Seq<char>,
                CmdError,
            >(e),
        },
{
    match check_capture(label, ignore_error, c) {
        Err(e) => Err(e),
        Ok(bytes) => match check_rest(rest, pipefail) {
            Err(e) => Err(e),
            Ok(()) => Ok(capture_to_text(&bytes)),
        },
    }
}

} // verus!
