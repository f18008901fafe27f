use cmd_pipeline::check_stage;
use cmd_pipeline::pipefail_from_flag;
use cmd_pipeline::streaming_supported;
use cmd_pipeline::wait_all_verdict;
use cmd_pipeline::CmdError;
use cmd_pipeline::ProcWait;
use cmd_pipeline::StageKind;
use cmd_pipeline::StageOutcome;
use cmd_pipeline::StageReport;
use cmd_pipeline::StageStatus;
use cmd_pipeline::ThreadWait;

fn proc_stage(label: &str, ignore_error: bool, status: StageStatus) -> StageReport {
    StageReport {
        label: String::from(label),
        ignore_error,
        outcome: StageOutcome::Proc(ProcWait::Status(status)),
    }
}

#[test]
fn single_successful_stage_returns_ok() {
    let reports = vec![proc_stage("echo hello", false, StageStatus::Exited(0))];
    assert!(wait_all_verdict(reports, true).is_ok());
}

#[test]
fn single_failing_stage_reports_label_and_code() {
    let reports = vec![proc_stage("false", false, StageStatus::Exited(3))];
    match wait_all_verdict(reports, true) {
        Err(CmdError::Execution { label, status }) => {
            assert_eq!(label, "false");
            assert_eq!(status, StageStatus::Exited(3));
        }
        other => panic!("expected an execution failure, got {:?}", other),
    }
}

#[test]
fn signaled_stage_fails() {
    let reports = vec![proc_stage("cat", false, StageStatus::Signaled(9))];
    match wait_all_verdict(reports, false) {
        Err(CmdError::Execution { label, status }) => {
            assert_eq!(label, "cat");
            assert_eq!(status, StageStatus::Signaled(9));
        }
        other => panic!("expected an execution failure, got {:?}", other),
    }
}

#[test]
fn pipefail_surfaces_nonterminal_failure() {
    let reports = vec![
        proc_stage("false", false, StageStatus::Exited(1)),
        proc_stage("cat", false, StageStatus::Exited(0)),
    ];
    assert!(wait_all_verdict(reports, true).is_err());
}

#[test]
fn no_pipefail_terminal_success_wins() {
    let reports = vec![
        proc_stage("false", false, StageStatus::Exited(1)),
        proc_stage("cat", false, StageStatus::Exited(0)),
    ];
    assert!(wait_all_verdict(reports, false).is_ok());
}

#[test]
fn three_stage_failure_identifies_first_stage() {
    let reports = vec![
        proc_stage("A", false, StageStatus::Exited(2)),
        proc_stage("B", false, StageStatus::Exited(0)),
        proc_stage("C", false, StageStatus::Exited(0)),
    ];
    match wait_all_verdict(reports, true) {
        Err(CmdError::Execution { label, status }) => {
            assert_eq!(label, "A");
            assert_eq!(status, StageStatus::Exited(2));
        }
        other => panic!("expected the failure of A, got {:?}", other),
    }
}

#[test]
fn ignore_error_suppresses_terminal_failure() {
    let reports = vec![proc_stage("false", true, StageStatus::Exited(1))];
    assert!(wait_all_verdict(reports, true).is_ok());
}

#[test]
fn wait_error_escalates_even_without_pipefail() {
    let reports = vec![
        StageReport {
            label: String::from("cat"),
            ignore_error: true,
            outcome: StageOutcome::Proc(ProcWait::WaitErr(String::from("broken pipe"))),
        },
        proc_stage("wc", false, StageStatus::Exited(0)),
    ];
    match wait_all_verdict(reports, false) {
        Err(CmdError::Io { detail }) => assert_eq!(detail, "broken pipe"),
        other => panic!("expected a stream error, got {:?}", other),
    }
}

#[test]
fn thread_crash_suppressed_without_pipefail() {
    let report = StageReport {
        label: String::from("worker"),
        ignore_error: false,
        outcome: StageOutcome::Thread(ThreadWait::Panicked(String::from("boom"))),
    };
    assert!(check_stage(report, false, false).is_ok());
}

#[test]
fn thread_crash_surfaces_under_pipefail() {
    let report = StageReport {
        label: String::from("worker"),
        ignore_error: false,
        outcome: StageOutcome::Thread(ThreadWait::Panicked(String::from("boom"))),
    };
    match check_stage(report, false, true) {
        Err(CmdError::Task { label, detail }) => {
            assert_eq!(label, "worker");
            assert_eq!(detail, "boom");
        }
        other => panic!("expected a task failure, got {:?}", other),
    }
}

#[test]
fn thread_returned_failure_propagates_unchanged() {
    let report = StageReport {
        label: String::from("worker"),
        ignore_error: false,
        outcome: StageOutcome::Thread(ThreadWait::Finished(Err(CmdError::Io {
            detail: String::from("short read"),
        }))),
    };
    match check_stage(report, true, false) {
        Err(CmdError::Io { detail }) => assert_eq!(detail, "short read"),
        other => panic!("expected the task's own error, got {:?}", other),
    }
}

#[test]
fn thread_failures_ignored_with_flag() {
    let crash = StageReport {
        label: String::from("worker"),
        ignore_error: true,
        outcome: StageOutcome::Thread(ThreadWait::Panicked(String::from("boom"))),
    };
    assert!(check_stage(crash, true, true).is_ok());
    let returned = StageReport {
        label: String::from("worker"),
        ignore_error: true,
        outcome: StageOutcome::Thread(ThreadWait::Finished(Err(CmdError::Io {
            detail: String::from("short read"),
        }))),
    };
    assert!(check_stage(returned, true, true).is_ok());
}

#[test]
fn sync_stage_never_fails() {
    let report = StageReport {
        label: String::from("ready"),
        ignore_error: false,
        outcome: StageOutcome::Sync,
    };
    assert!(check_stage(report, true, true).is_ok());
}

#[test]
fn pipefail_flag_zero_disables() {
    assert!(pipefail_from_flag(None));
    assert!(!pipefail_from_flag(Some(String::from("0"))));
    assert!(pipefail_from_flag(Some(String::from("1"))));
    assert!(pipefail_from_flag(Some(String::from(""))));
}

#[test]
fn streaming_supported_by_kind() {
    assert!(streaming_supported(StageKind::Proc));
    assert!(streaming_supported(StageKind::Sync));
    assert!(!streaming_supported(StageKind::Thread));
}
