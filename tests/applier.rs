use scx_power_sync::applier::{
    apply_mode, finish_apply, probe_warning, running_from_lowered, scx_argv, scx_running,
    ApplyError, Subcommand, ToolOutput,
};
use scx_power_sync::mode_table::Mode;

fn output(code: Option<i32>, stdout: &str, stderr: &str) -> ToolOutput {
    ToolOutput { code, stdout: stdout.to_string(), stderr: stderr.to_string() }
}

fn mode() -> Mode {
    Mode { sched: "scx_lavd".to_string(), args: "--performance --slice-us 5000".to_string() }
}

#[test]
fn idle_marker_in_any_case_means_not_running() {
    for s in [
        "no scx scheduler running",
        "No SCX scheduler running\n",
        "NO SCX SCHEDULER RUNNING",
        "status: no scx scheduler running.",
    ] {
        assert_eq!(scx_running(&Ok(output(Some(0), s, ""))).unwrap(), false);
    }
}

#[test]
fn other_output_means_running() {
    for s in ["", "running scx_lavd in gaming mode", "no scheduler running", "scx_rusty"] {
        assert_eq!(scx_running(&Ok(output(Some(0), s, ""))).unwrap(), true);
    }
}

#[test]
fn probe_exit_status_does_not_decide() {
    assert_eq!(scx_running(&Ok(output(Some(1), "", "boom"))).unwrap(), true);
    assert_eq!(
        scx_running(&Ok(output(Some(2), "no scx scheduler running", ""))).unwrap(),
        false
    );
}

#[test]
fn probe_that_could_not_run_fails() {
    match scx_running(&Err("not found".to_string())) {
        Err(ApplyError::ProbeFailed { message }) => assert_eq!(message, "not found"),
        other => panic!("unexpected: {:?}", other),
    }
}

#[test]
fn lowered_report_is_read_exactly() {
    assert!(!running_from_lowered("no scx scheduler running"));
    assert!(running_from_lowered("NO SCX SCHEDULER RUNNING"));
    assert!(running_from_lowered(""));
}

#[test]
fn probe_warning_reports_failures_only() {
    assert!(probe_warning(&output(Some(0), "x", "ignored")).is_none());
    assert_eq!(probe_warning(&output(Some(3), "", "  bad thing \n")), Some((3, "bad thing".to_string())));
    assert_eq!(probe_warning(&output(None, "", "")), Some((-1, String::new())));
}

#[test]
fn argv_keeps_args_as_one_token() {
    let argv = scx_argv(Subcommand::Start, &mode());
    assert_eq!(
        argv,
        vec!["start", "--sched", "scx_lavd", "--args=--performance --slice-us 5000"]
    );
    let argv = scx_argv(Subcommand::Switch, &Mode { sched: "x".to_string(), args: String::new() });
    assert_eq!(argv, vec!["switch", "--sched", "x", "--args="]);
}

#[test]
fn running_scheduler_is_switched() {
    let call = apply_mode(&mode(), &Ok(output(Some(0), "running scx_bpfland", ""))).unwrap();
    assert_eq!(call.subcommand, Subcommand::Switch);
    assert_eq!(call.argv[0], "switch");
}

#[test]
fn idle_scheduler_is_started() {
    let call = apply_mode(&mode(), &Ok(output(Some(0), "No SCX Scheduler Running", ""))).unwrap();
    assert_eq!(call.subcommand, Subcommand::Start);
    assert_eq!(call.argv, vec!["start", "--sched", "scx_lavd", "--args=--performance --slice-us 5000"]);
}

#[test]
fn empty_probe_output_switches() {
    let call = apply_mode(&mode(), &Ok(output(Some(0), "", ""))).unwrap();
    assert_eq!(call.subcommand, Subcommand::Switch);
}

#[test]
fn failed_probe_fails_apply() {
    assert!(matches!(
        apply_mode(&mode(), &Err("spawn failed".to_string())),
        Err(ApplyError::ProbeFailed { .. })
    ));
}

#[test]
fn nonzero_exit_carries_code_and_stderr() {
    match finish_apply(Subcommand::Switch, &Ok(output(Some(17), "partial", "  sched not found\n"))) {
        Err(ApplyError::ToolFailed { subcommand, exit_code, stderr }) => {
            assert_eq!(subcommand, Subcommand::Switch);
            assert_eq!(exit_code, 17);
            assert_eq!(stderr, "sched not found");
        }
        other => panic!("unexpected: {:?}", other),
    }
}

#[test]
fn killed_tool_reports_sentinel_code() {
    match finish_apply(Subcommand::Start, &Ok(output(None, "", "killed"))) {
        Err(ApplyError::ToolFailed { exit_code, stderr, .. }) => {
            assert_eq!(exit_code, -1);
            assert_eq!(stderr, "killed");
        }
        other => panic!("unexpected: {:?}", other),
    }
}

#[test]
fn tool_that_could_not_run_fails() {
    match finish_apply(Subcommand::Start, &Err("no such file".to_string())) {
        Err(ApplyError::ExecFailed { subcommand, message }) => {
            assert_eq!(subcommand, Subcommand::Start);
            assert_eq!(message, "no such file");
        }
        other => panic!("unexpected: {:?}", other),
    }
}

#[test]
fn success_returns_trimmed_stdout() {
    assert_eq!(
        finish_apply(Subcommand::Start, &Ok(output(Some(0), "\n started scx_lavd \n", ""))).unwrap(),
        Some("started scx_lavd".to_string())
    );
    assert_eq!(finish_apply(Subcommand::Start, &Ok(output(Some(0), "  \n", "warn"))).unwrap(), None);
}

#[test]
fn subcommand_tokens() {
    assert_eq!(Subcommand::Start.as_str(), "start");
    assert_eq!(Subcommand::Switch.as_str(), "switch");
}
