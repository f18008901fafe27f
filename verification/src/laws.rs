//! Laws of the failure semantics, stated over whole pipelines.

use vstd::prelude::*;

use crate::report::CmdError;
use crate::report::ProcWait;
use crate::report::StageOutcome;
use crate::report::StageReport;
use crate::report::ThreadWait;
use crate::verdict::pipeline_verdict;
use crate::verdict::rest_verdict;
use crate::verdict::stage_failed;
use crate::verdict::stage_verdict;
use crate::verdict::stage_wait_errored;

verus! {

/// One stage's verdict, characterized: it is a failure exactly when the
/// stage failed (after its ignore-error flag) and escalation applies —
/// the stage is terminal or pipefail is on — or its blocking wait itself
/// errored, which no policy suppresses. The surfaced error identifies the
/// stage: an unsuccessful process exit becomes `Execution` with the stage's
/// label and status, a crashed task becomes `Task` with the stage's label,
/// a wait-level stream error becomes `Io`, and a failure the task itself
/// returned is propagated unchanged.
pub proof fn lemma_stage_verdict_characterized(r: StageReport, is_terminal: bool, pipefail: bool)
    ensures
        stage_verdict(r, is_terminal, pipefail) is Err <==> ((stage_failed(r) && (is_terminal
            || pipefail)) || stage_wait_errored(r)),
        match stage_verdict(r, is_terminal, pipefail) {
            Err(e) => match r.outcome {
                StageOutcome::Proc(ProcWait::Status(status)) => e == (CmdError::Execution {
                    label: r.label,
                    status,
                }),
                StageOutcome::Proc(ProcWait::WaitErr(detail)) => e == (CmdError::Io { detail }),
                StageOutcome::Thread(ThreadWait::Panicked(detail)) => e == (CmdError::Task {
                    label: r.label,
                    detail,
                }),
                StageOutcome::Thread(ThreadWait::Finished(res)) => res == Err::<(), CmdError>(e),
                StageOutcome::Sync => false,
            },
            Ok(()) => true,
        },
{
}

/// Under pipefail, the non-terminal stages' pass succeeds exactly when none
/// of them failed.
proof fn lemma_rest_verdict_pipefail(reports: Seq<StageReport>)
    ensures
        rest_verdict(reports, true) is Ok <==> (forall|i: int|
            0 <= i < reports.len() ==> !stage_failed(#[trigger] reports[i])),
    decreases reports.len(),
{
    if reports.len() > 0 {
        lemma_stage_verdict_characterized(reports.last(), false, true);
        lemma_rest_verdict_pipefail(reports.drop_last());
        if stage_verdict(reports.last(), false, true) is Ok {
            assert(forall|i: int|
                0 <= i < reports.len() - 1 ==> reports.drop_last()[i] == #[trigger] reports[i]);
        }
    }
}

/// Without pipefail, the non-terminal stages' pass succeeds whenever no
/// blocking wait itself errored, whatever the stages' own outcomes.
proof fn lemma_rest_verdict_no_pipefail(reports: Seq<StageReport>)
    requires
        forall|i: int| 0 <= i < reports.len() ==> !stage_wait_errored(#[trigger] reports[i]),
    ensures
        rest_verdict(reports, false) == Ok::<(), CmdError>(()),
    decreases reports.len(),
{
    if reports.len() > 0 {
        lemma_stage_verdict_characterized(reports.last(), false, false);
        lemma_rest_verdict_no_pipefail(reports.drop_last());
    }
}

/// With pipefail enabled, a pipeline succeeds exactly when no stage failed:
/// a non-terminal stage's failure yields overall failure even when the
/// terminal stage succeeds.
pub proof fn lemma_pipefail_any_failure_surfaces(reports: Seq<StageReport>)
    requires
        reports.len() > 0,
    ensures
        pipeline_verdict(reports, true) is Ok <==> (forall|i: int|
            0 <= i < reports.len() ==> !stage_failed(#[trigger] reports[i])),
{
    lemma_stage_verdict_characterized(reports.last(), true, true);
    lemma_rest_verdict_pipefail(reports.drop_last());
    if stage_verdict(reports.last(), true, true) is Ok {
        assert(forall|i: int|
            0 <= i < reports.len() - 1 ==> reports.drop_last()[i] == #[trigger] reports[i]);
    }
}

/// With pipefail disabled, the overall result follows the terminal stage
/// alone: earlier stages' failures are suppressed — provided no earlier
/// stage's blocking wait itself errored at the stream level, which escalates
/// under any policy.
pub proof fn lemma_no_pipefail_terminal_decides(reports: Seq<StageReport>)
    requires
        reports.len() > 0,
        forall|i: int| 0 <= i < reports.len() - 1 ==> !stage_wait_errored(#[trigger] reports[i]),
    ensures
        pipeline_verdict(reports, false) == stage_verdict(reports.last(), true, false),
{
    assert(forall|i: int|
        0 <= i < reports.len() - 1 ==> !stage_wait_errored(#[trigger] reports.drop_last()[i]));
    lemma_rest_verdict_no_pipefail(reports.drop_last());
}

/// Under pipefail, when exactly one non-terminal stage fails, the pass over
/// the non-terminal stages surfaces that stage's own verdict.
proof fn lemma_rest_single_failure(reports: Seq<StageReport>, i: int)
    requires
        0 <= i < reports.len(),
        stage_failed(reports[i]),
        forall|j: int| 0 <= j < reports.len() && j != i ==> !stage_failed(#[trigger] reports[j]),
    ensures
        rest_verdict(reports, true) == stage_verdict(reports[i], false, true),
    decreases reports.len(),
{
    lemma_stage_verdict_characterized(reports.last(), false, true);
    if i == reports.len() - 1 {
    } else {
        assert(forall|j: int|
            0 <= j < reports.len() - 1 ==> reports.drop_last()[j] == #[trigger] reports[j]);
        lemma_rest_single_failure(reports.drop_last(), i);
    }
}

/// Even though the terminal stage is waited chronologically first and the
/// rest in reverse order, the failure a pipeline surfaces identifies the
/// stage that actually failed: with pipefail enabled, a successful terminal
/// stage, and exactly one failing non-terminal stage, the overall verdict is
/// that stage's own — for an unsuccessful process exit or a crashed task, an
/// error carrying that stage's label.
pub proof fn lemma_single_failure_identified(reports: Seq<StageReport>, i: int)
    requires
        reports.len() > 0,
        0 <= i < reports.len() - 1,
        !stage_failed(reports.last()),
        stage_failed(reports[i]),
        forall|j: int| 0 <= j < reports.len() - 1 && j != i ==> !stage_failed(#[trigger] reports[j]),
    ensures
        pipeline_verdict(reports, true) == stage_verdict(reports[i], false, true),
        pipeline_verdict(reports, true) is Err,
        (reports[i].outcome matches StageOutcome::Proc(ProcWait::Status(_))
            || reports[i].outcome matches StageOutcome::Thread(ThreadWait::Panicked(_)))
            ==> (pipeline_verdict(reports, true) matches Err(e)
            && e.label_of() == Some(reports[i].label)),
{
    lemma_stage_verdict_characterized(reports.last(), true, true);
    assert(forall|j: int|
        0 <= j < reports.len() - 1 ==> reports.drop_last()[j] == #[trigger] reports[j]);
    lemma_rest_single_failure(reports.drop_last(), i);
    lemma_stage_verdict_characterized(reports[i], false, true);
}

} // verus!
