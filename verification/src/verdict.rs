//! Failure semantics: which stage outcomes surface as pipeline failures.
//!
//! A stage's failure escalates past that stage only if the stage is terminal
//! or pipefail is enabled; a per-stage ignore-error flag suppresses execution
//! and task failures unconditionally. A wait-level stream error escalates
//! always. The pipeline verdict waits the terminal stage first, then the
//! remaining stages in reverse insertion order, and surfaces the first
//! failure encountered.

use vstd::prelude::*;
use vstd::string::StringExecFns;

use crate::report::CmdError;
use crate::report::ProcWait;
use crate::report::StageOutcome;
use crate::report::StageReport;
use crate::report::ThreadWait;

verus! {

/// What waiting one stage decides, given whether the stage is terminal and
/// whether pipefail is enabled.
///
/// - A process stage surfaces `Execution` when it ended unsuccessfully, is
///   not ignore-error, and is terminal or pipefail is on; a wait-level stream
///   error surfaces as `Io` unconditionally.
/// - A background-task stage under ignore-error never surfaces anything;
///   otherwise a crash surfaces as `Task`, and a failure the task itself
///   returned is propagated unchanged, each only when terminal or pipefail.
/// - An already-completed stage never fails.
pub open spec fn stage_verdict(r: StageReport, is_terminal: bool, pipefail: bool) -> Result<
    (),
    CmdError,
> {
    match r.outcome {
        StageOutcome::Proc(pw) => match pw {
            ProcWait::WaitErr(detail) => Err(CmdError::Io { detail }),
            ProcWait::Status(status) => if !r.ignore_error && !status.success() && (is_terminal
                || pipefail) {
                Err(CmdError::Execution { label: r.label, status })
            } else {
                Ok(())
            },
        },
        StageOutcome::Thread(tw) => if r.ignore_error {
            Ok(())
        } else {
            match tw {
                ThreadWait::Panicked(detail) => if is_terminal || pipefail {
                    Err(CmdError::Task { label: r.label, detail })
                } else {
                    Ok(())
                },
                ThreadWait::Finished(res) => match res {
                    Err(e) => if is_terminal || pipefail {
                        Err(e)
                    } else {
                        Ok(())
                    },
                    Ok(()) => Ok(()),
                },
            }
        },
        StageOutcome::Sync => Ok(()),
    }
}

/// Whether a stage's own outcome counts as a failure once its ignore-error
/// flag is applied — before the position/pipefail policy decides whether the
/// failure escalates.
pub open spec fn stage_failed(r: StageReport) -> bool {
    match r.outcome {
        StageOutcome::Proc(pw) => match pw {
            ProcWait::WaitErr(_) => true,
            ProcWait::Status(status) => !r.ignore_error && !status.success(),
        },
        StageOutcome::Thread(tw) => !r.ignore_error && match tw {
            ThreadWait::Panicked(_) => true,
            ThreadWait::Finished(res) => res is Err,
        },
        StageOutcome::Sync => false,
    }
}

/// Whether a stage's blocking wait itself failed at the stream level. Such a
/// failure escalates unconditionally: no flag or policy suppresses it.
pub open spec fn stage_wait_errored(r: StageReport) -> bool {
    r.outcome matches StageOutcome::Proc(ProcWait::WaitErr(_))
}

/// Decide what waiting one stage surfaces. Consumes the stage's report: a
/// stage is waited at most once.
pub fn check_stage(r: StageReport, is_terminal: bool, pipefail: bool) -> (v: Result<(), CmdError>)
    ensures
        v == stage_verdict(r, is_terminal, pipefail),
{
    match r.outcome {
        StageOutcome::Proc(pw) => match pw {
            ProcWait::WaitErr(detail) => Err(CmdError::Io { detail }),
            ProcWait::Status(status) => {
                if !r.ignore_error && !status.is_success() && (is_terminal || pipefail) {
                    Err(CmdError::Execution { label: r.label, status })
                } else {
                    Ok(())
                }
            },
        },
        StageOutcome::Thread(tw) => {
            if r.ignore_error {
                Ok(())
            } else {
                match tw {
                    ThreadWait::Panicked(detail) => {
                        if is_terminal || pipefail {
                            Err(CmdError::Task { label: r.label, detail })
                        } else {
                            Ok(())
                        }
                    },
                    ThreadWait::Finished(res) => match res {
                        Err(e) => {
                            if is_terminal || pipefail {
                                Err(e)
                            } else {
                                Ok(())
                            }
                        },
                        Ok(()) => Ok(()),
                    },
                }
            }
        },
        StageOutcome::Sync => Ok(()),
    }
}

/// The verdict over the non-terminal stages, waited in reverse insertion
/// order (last element first), surfacing the first failure encountered.
pub open spec fn rest_verdict(reports: Seq<StageReport>, pipefail: bool) -> Result<(), CmdError>
    decreases reports.len(),
{
    if reports.len() == 0 {
        Ok(())
    } else {
        match stage_verdict(reports.last(), false, pipefail) {
            Err(e) => Err(e),
            Ok(()) => rest_verdict(reports.drop_last(), pipefail),
        }
    }
}

/// The consolidated verdict of a whole pipeline: the terminal stage (the
/// last-inserted one) is waited first; on its success the remaining stages
/// are waited in reverse insertion order, and the first failure encountered
/// is surfaced.
pub open spec fn pipeline_verdict(reports: Seq<StageReport>, pipefail: bool) -> Result<
    (),
    CmdError,
>
    recommends
        reports.len() > 0,
{
    match stage_verdict(reports.last(), true, pipefail) {
        Err(e) => Err(e),
        Ok(()) => rest_verdict(reports.drop_last(), pipefail),
    }
}

/// Decide what waiting the non-terminal stages surfaces: each is checked in
/// reverse insertion order, and the first failure wins.
pub fn check_rest(reports: Vec<StageReport>, pipefail: bool) -> (v: Result<(), CmdError>)
    ensures
        v == rest_verdict(reports@, pipefail),
{
    let ghost all = reports@;
    let mut reports = reports;
    #[verifier::loop_isolation(false)]
    loop
        invariant
            rest_verdict(all, pipefail) == rest_verdict(reports@, pipefail),
        decreases reports@.len(),
    {
        let ghost pre = reports@;
        match reports.pop() {
            None => {
                proof {
                    assert(pre.len() == 0);
                    assert(rest_verdict(pre, pipefail) == Ok::<(), CmdError>(()));
                }
                return Ok(());
            },
            Some(r) => {
                proof {
                    assert(pre.len() > 0);
                    assert(r == pre.last());
                    assert(reports@ =~= pre.drop_last());
                }
                let v = check_stage(r, false, pipefail);
                if let Err(e) = v {
                    proof {
                        assert(rest_verdict(pre, pipefail) == Err::<(), CmdError>(e));
                    }
                    return Err(e);
                }
                proof {
                    assert(rest_verdict(pre, pipefail) == rest_verdict(reports@, pipefail));
                }
            },
        }
    }
}

/// The status-returning wait over a fully waited pipeline: decide the
/// consolidated outcome from every stage's report, insertion order, the
/// terminal stage last.
pub fn wait_all_verdict(reports: Vec<StageReport>, pipefail: bool) -> (v: Result<(), CmdError>)
    requires
        reports@.len() > 0,
    ensures
        v == pipeline_verdict(reports@, pipefail),
{
    let ghost all = reports@;
    let mut reports = reports;
    let terminal = reports.pop().unwrap();
    proof {
        assert(terminal == all.last());
        assert(reports@ =~= all.drop_last());
    }
    let v = check_stage(terminal, true, pipefail);
    if let Err(e) = v {
        return Err(e);
    }
    check_rest(reports, pipefail)
}

/// The pipefail policy, read from ambient configuration: an explicit "0"
/// disables it, so that only the terminal stage's failure matters; any other
/// value, or no value at all, enables it.
pub fn pipefail_from_flag(flag: Option<String>) -> (b: bool)
    ensures
        b == match flag {
            Some(s) => s@ != "0"@,
            None => true,
        },
{
    match flag {
        None => true,
        Some(s) => {
            let zero = String::from_str("0");
            !(s == zero)
        },
    }
}

} // verus!
