use scx_power_sync::applier::{ApplyError, Subcommand, ToolOutput};
use scx_power_sync::mode_table::{Config, Mode, ModeEntry};
use scx_power_sync::profile::Profile;
use scx_power_sync::reactor::{Command, Notice, Notification, PropertyValue, Reactor, Stage};

const IFACE: &str = "net.hadess.PowerProfiles";

fn entry(key: &str, sched: &str, args: &str) -> ModeEntry {
    ModeEntry {
        key: key.to_string(),
        mode: Mode { sched: sched.to_string(), args: args.to_string() },
    }
}

fn config() -> Config {
    Config::from_entries(vec![
        entry("performance", "scx_rusty", "--perf"),
        entry("balanced", "scx_bpfland", "-m auto"),
        entry("power-saver", "scx_lavd", "--powersave --x 1"),
    ])
    .unwrap()
}

fn output(code: Option<i32>, stdout: &str, stderr: &str) -> ToolOutput {
    ToolOutput { code, stdout: stdout.to_string(), stderr: stderr.to_string() }
}

fn changed(interface: &str, value: Option<PropertyValue>) -> Notification {
    Notification::Changed { interface: interface.to_string(), active_profile: value }
}

fn profile_event(s: &str) -> Notification {
    changed(IFACE, Some(PropertyValue::Str(s.to_string())))
}

fn synced(last: Profile) -> Reactor {
    let mut r = Reactor::new(config());
    r.last_applied = Some(last);
    r
}

#[test]
fn repeated_profile_is_not_applied() {
    let mut r = synced(Profile::Balanced);
    let step = r.on_signal(&profile_event("balanced"));
    assert!(matches!(step.command, Command::AwaitSignal));
    assert!(step.notices.is_empty());
    assert_eq!(r.last_applied, Some(Profile::Balanced));
    assert_eq!(r.stage, Stage::Idle);
}

#[test]
fn new_profile_is_applied_once() {
    let mut r = synced(Profile::Balanced);
    let step = r.on_signal(&profile_event("performance"));
    assert!(matches!(step.command, Command::RunProbe));
    assert!(matches!(step.notices.as_slice(), [Notice::Transition(Profile::Performance)]));
    assert_eq!(r.stage, Stage::Probing { profile: Profile::Performance, startup: false });
    assert_eq!(r.last_applied, Some(Profile::Balanced));

    let step = r.on_probe(&Ok(output(Some(0), "scx_bpfland running", "")));
    match step.command {
        Command::RunTool(argv) => assert_eq!(argv, vec!["switch", "--sched", "scx_rusty", "--args=--perf"]),
        other => panic!("unexpected: {:?}", other),
    }
    assert_eq!(r.last_applied, Some(Profile::Balanced));

    let step = r.on_tool(&Ok(output(Some(0), "switched\n", "")));
    assert!(matches!(step.command, Command::AwaitSignal));
    assert!(matches!(step.notices.as_slice(), [Notice::ToolStdout(s)] if s == "switched"));
    assert_eq!(r.last_applied, Some(Profile::Performance));
    assert_eq!(r.stage, Stage::Idle);
}

#[test]
fn failed_application_keeps_last_profile() {
    let mut r = synced(Profile::Balanced);
    r.on_signal(&profile_event("power-saver"));
    r.on_probe(&Ok(output(Some(0), "no scx scheduler running", "")));
    assert_eq!(
        r.stage,
        Stage::Invoking { profile: Profile::PowerSaver, subcommand: Subcommand::Start, startup: false }
    );
    let step = r.on_tool(&Ok(output(Some(4), "", " bad args ")));
    assert!(matches!(step.command, Command::AwaitSignal));
    match step.notices.as_slice() {
        [Notice::ApplyFailed(ApplyError::ToolFailed { subcommand, exit_code, stderr })] => {
            assert_eq!(*subcommand, Subcommand::Start);
            assert_eq!(*exit_code, 4);
            assert_eq!(stderr, "bad args");
        }
        other => panic!("unexpected: {:?}", other),
    }
    assert_eq!(r.last_applied, Some(Profile::Balanced));
    assert_eq!(r.stage, Stage::Idle);
    // The same profile is tried again on its next notification.
    let step = r.on_signal(&profile_event("power-saver"));
    assert!(matches!(step.command, Command::RunProbe));
}

#[test]
fn failed_probe_after_startup_is_logged() {
    let mut r = synced(Profile::Balanced);
    r.on_signal(&profile_event("performance"));
    let step = r.on_probe(&Err("exec failed".to_string()));
    assert!(matches!(step.command, Command::AwaitSignal));
    assert!(matches!(step.notices.as_slice(), [Notice::ApplyFailed(ApplyError::ProbeFailed { message })] if message == "exec failed"));
    assert_eq!(r.stage, Stage::Idle);
    assert_eq!(r.last_applied, Some(Profile::Balanced));
}

#[test]
fn probe_exit_status_is_logged() {
    let mut r = synced(Profile::Balanced);
    r.on_signal(&profile_event("performance"));
    let step = r.on_probe(&Ok(output(Some(1), "", " oops ")));
    assert!(matches!(step.command, Command::RunTool(_)));
    match step.notices.as_slice() {
        [Notice::ProbeExit { code, stderr }, Notice::Applying { subcommand, sched, args }] => {
            assert_eq!(*code, 1);
            assert_eq!(stderr, "oops");
            assert_eq!(*subcommand, Subcommand::Switch);
            assert_eq!(sched, "scx_rusty");
            assert_eq!(args, "--perf");
        }
        other => panic!("unexpected: {:?}", other),
    }
}

#[test]
fn other_interface_is_ignored_silently() {
    let mut r = synced(Profile::Balanced);
    let step = r.on_signal(&changed("org.freedesktop.UPower", Some(PropertyValue::Str("performance".to_string()))));
    assert!(matches!(step.command, Command::AwaitSignal));
    assert!(step.notices.is_empty());
    assert_eq!(r.last_applied, Some(Profile::Balanced));
    assert_eq!(r.stage, Stage::Idle);
}

#[test]
fn missing_property_is_ignored_silently() {
    let mut r = synced(Profile::Balanced);
    let step = r.on_signal(&changed(IFACE, None));
    assert!(matches!(step.command, Command::AwaitSignal));
    assert!(step.notices.is_empty());
}

#[test]
fn malformed_notifications_are_logged_and_skipped() {
    let mut r = synced(Profile::Balanced);
    let step = r.on_signal(&Notification::Undecodable("bad body".to_string()));
    assert!(matches!(step.notices.as_slice(), [Notice::SignalUndecodable(m)] if m == "bad body"));
    let step = r.on_signal(&changed(IFACE, Some(PropertyValue::OtherVariant)));
    assert!(matches!(step.notices.as_slice(), [Notice::UnexpectedVariant]));
    let step = r.on_signal(&changed(IFACE, Some(PropertyValue::Undecodable("v".to_string()))));
    assert!(matches!(step.notices.as_slice(), [Notice::ValueUndecodable(m)] if m == "v"));
    let step = r.on_signal(&profile_event("turbo"));
    assert!(matches!(step.notices.as_slice(), [Notice::UnknownProfile(m)] if m == "turbo"));
    assert!(matches!(step.command, Command::AwaitSignal));
    assert_eq!(r.last_applied, Some(Profile::Balanced));
    assert_eq!(r.stage, Stage::Idle);
}

#[test]
fn startup_starts_scheduler_once() {
    let mut r = Reactor::new(config());
    let step = r.startup("power-saver");
    assert!(matches!(step.command, Command::RunProbe));
    assert!(matches!(step.notices.as_slice(), [Notice::StartupProfile(Profile::PowerSaver)]));
    let step = r.on_probe(&Ok(output(Some(0), "no scx scheduler running", "")));
    match step.command {
        Command::RunTool(argv) => {
            assert_eq!(argv, vec!["start", "--sched", "scx_lavd", "--args=--powersave --x 1"])
        }
        other => panic!("unexpected: {:?}", other),
    }
    let step = r.on_tool(&Ok(output(Some(0), "", "")));
    assert!(matches!(step.command, Command::AwaitSignal));
    assert!(step.notices.is_empty());
    assert_eq!(r.last_applied, Some(Profile::PowerSaver));
    assert_eq!(r.stage, Stage::Idle);
}

#[test]
fn startup_failure_aborts() {
    let mut r = Reactor::new(config());
    r.startup("balanced");
    r.on_probe(&Ok(output(Some(0), "running", "")));
    let step = r.on_tool(&Ok(output(Some(2), "", "denied")));
    match step.command {
        Command::Abort(ApplyError::ToolFailed { subcommand, exit_code, stderr }) => {
            assert_eq!(subcommand, Subcommand::Switch);
            assert_eq!(exit_code, 2);
            assert_eq!(stderr, "denied");
        }
        other => panic!("unexpected: {:?}", other),
    }
    assert_eq!(r.stage, Stage::Halted);
    assert_eq!(r.last_applied, None);
}

#[test]
fn startup_probe_failure_aborts() {
    let mut r = Reactor::new(config());
    r.startup("performance");
    let step = r.on_probe(&Err("gone".to_string()));
    assert!(matches!(step.command, Command::Abort(ApplyError::ProbeFailed { .. })));
    assert_eq!(r.stage, Stage::Halted);
}

#[test]
fn startup_with_unknown_profile_waits() {
    let mut r = Reactor::new(config());
    let step = r.startup("low-power");
    assert!(matches!(step.command, Command::AwaitSignal));
    assert!(matches!(step.notices.as_slice(), [Notice::StartupUnknown(s)] if s == "low-power"));
    assert_eq!(r.last_applied, None);
    assert_eq!(r.stage, Stage::Idle);
}
