//! Result-collection engine for shell-style process pipelines.
//!
//! A pipeline is an ordered sequence of running stages (external processes,
//! background tasks, or already-completed values) connected by pipes. Once
//! every stage has been waited on by the surrounding runtime, this crate
//! decides the consolidated outcome: which failures surface, which are
//! suppressed by the pipefail policy or a per-stage ignore-error flag, and
//! what captured text is returned.

mod capture;
mod laws;
mod report;
mod text;
mod verdict;

pub use capture::capture_text_verdict;
pub use capture::capture_verdict;
pub use capture::check_capture;
pub use capture::wait_all_capture;
pub use capture::CaptureOutcome;
pub use capture::ProcCapture;
pub use report::CmdError;
pub use report::ProcWait;
pub use report::streaming_supported;
pub use report::StageKind;
pub use report::StageOutcome;
pub use report::StageReport;
pub use report::StageStatus;
pub use report::ThreadWait;
pub use laws::lemma_no_pipefail_terminal_decides;
pub use laws::lemma_pipefail_any_failure_surfaces;
pub use laws::lemma_single_failure_identified;
pub use laws::lemma_stage_verdict_characterized;
pub use text::capture_to_text;
pub use text::join_labels;
pub use text::joined_labels;
pub use text::lossy_of;
pub use text::strip_last_newline;
pub use text::strip_trailing_newline;
pub use verdict::check_rest;
pub use verdict::check_stage;
pub use verdict::pipefail_from_flag;
pub use verdict::pipeline_verdict;
pub use verdict::rest_verdict;
pub use verdict::stage_failed;
pub use verdict::stage_verdict;
pub use verdict::stage_wait_errored;
pub use verdict::wait_all_verdict;
