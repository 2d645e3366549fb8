//! The profile-change reactor: a state machine that owns the last applied
//! profile and decides, for each input, what the daemon does next.
//!
//! The daemon feeds it the profile read at startup, each change
//! notification, and the outcome of each control-tool run it was asked for;
//! each answer is a `Step`: the command to carry out next and what to log.
//! Events are handled one at a time, and at most one tool run is pending.
use vstd::prelude::*;

use crate::applier::{
    apply_mode, argv_spec, exit_code_of, finish_apply, probe_warning, reports_running,
    subcommand_for, texts, ApplyError, Subcommand, ToolOutput,
};
use crate::mode_table::{Config, Mode};
use crate::profile::Profile;
use crate::text::{same_text, trimmed_of};

verus! {

/// The value of the watched property in a change notification.
#[derive(Debug)]
pub enum PropertyValue {
    /// A string value.
    Str(String),
    /// A value of another type.
    OtherVariant,
    /// A value that could not be decoded.
    Undecodable(String),
}

/// A change notification from the bus.
#[derive(Debug)]
pub enum Notification {
    /// The notification's arguments could not be decoded.
    Undecodable(String),
    /// Properties of `interface` changed; `active_profile` is the watched
    /// property's new value, when it is among them.
    Changed { interface: String, active_profile: Option<PropertyValue> },
}

/// Where the reactor stands.
#[derive(Debug, Clone, Copy, PartialEq, Eq, Structural)]
pub enum Stage {
    /// Waiting for the startup read or the next notification.
    Idle,
    /// The run-state query for applying `profile` is pending.
    Probing { profile: Profile, startup: bool },
    /// The control tool's `subcommand` for applying `profile` is pending.
    Invoking { profile: Profile, subcommand: Subcommand, startup: bool },
    /// The startup sync failed; the daemon stops.
    Halted,
}

/// Something worth logging.
#[derive(Debug)]
pub enum Notice {
    /// The profile read at startup.
    StartupProfile(Profile),
    /// The string read at startup names no profile.
    StartupUnknown(String),
    /// A notification's arguments could not be decoded.
    SignalUndecodable(String),
    /// The watched property's value could not be decoded.
    ValueUndecodable(String),
    /// The watched property's value is not a string.
    UnexpectedVariant,
    /// A notification names no profile.
    UnknownProfile(String),
    /// The active profile changed to a profile not yet applied.
    Transition(Profile),
    /// The mode table has no mode for the profile.
    NoMode(Profile),
    /// The run-state query exited unsuccessfully.
    ProbeExit { code: i32, stderr: String },
    /// A mode is being applied.
    Applying { subcommand: Subcommand, sched: String, args: String },
    /// What the control tool printed while applying a mode.
    ToolStdout(String),
    /// Applying a mode after a notification failed; the daemon goes on.
    ApplyFailed(ApplyError),
}

/// What the daemon does next.
#[derive(Debug)]
pub enum Command {
    /// Wait for the next change notification.
    AwaitSignal,
    /// Run the control tool's run-state query.
    RunProbe,
    /// Run the control tool with these arguments.
    RunTool(Vec<String>),
    /// Stop: the startup sync failed.
    Abort(ApplyError),
}

/// The reactor's answer to one input.
#[derive(Debug)]
pub struct Step {
    pub command: Command,
    pub notices: Vec<Notice>,
}

/// The profile-change reactor.
#[derive(Debug)]
pub struct Reactor {
    pub config: Config,
    pub last_applied: Option<Profile>,
    pub stage: Stage,
}

/// The interface of the power-profile service.
pub open spec fn watched_interface() -> Seq<char> {
    "net.hadess.PowerProfiles"@
}

/// The profile that a notification reports for the watched interface, if any.
pub open spec fn reported_profile(n: Notification) -> Option<Profile> {
    match n {
        Notification::Changed { interface, active_profile: Some(PropertyValue::Str(s)) } => {
            if interface@ == watched_interface() {
                Profile::parse_spec(s@)
            } else {
                None
            }
        },
        _ => None,
    }
}

/// The profile that a notification asks to apply: a reported profile other
/// than the last applied one.
pub open spec fn signal_target(n: Notification, last: Option<Profile>) -> Option<Profile> {
    match reported_profile(n) {
        Some(p) => if last == Some(p) {
            None
        } else {
            Some(p)
        },
        None => None,
    }
}

/// What a notification has logged.
pub open spec fn signal_notices(n: Notification, last: Option<Profile>) -> Seq<Notice> {
    match n {
        Notification::Undecodable(m) => seq![Notice::SignalUndecodable(m)],
        Notification::Changed { interface, active_profile } => {
            if interface@ != watched_interface() {
                seq![]
            } else {
                match active_profile {
                    None => seq![],
                    Some(PropertyValue::OtherVariant) => seq![Notice::UnexpectedVariant],
                    Some(PropertyValue::Undecodable(m)) => seq![Notice::ValueUndecodable(m)],
                    Some(PropertyValue::Str(s)) => match Profile::parse_spec(s@) {
                        None => seq![Notice::UnknownProfile(s)],
                        Some(p) => if last == Some(p) {
                            seq![]
                        } else {
                            seq![Notice::Transition(p)]
                        },
                    },
                }
            }
        },
    }
}

/// The stage after the startup read of `raw`.
pub open spec fn startup_stage(raw: Seq<char>) -> Stage {
    match Profile::parse_spec(raw) {
        Some(p) => Stage::Probing { profile: p, startup: true },
        None => Stage::Idle,
    }
}

/// The stage after the run-state query's outcome.
pub open spec fn probe_stage(stage: Stage, probe: Result<ToolOutput, String>) -> Stage {
    match stage {
        Stage::Probing { profile, startup } => match probe {
            Ok(o) => Stage::Invoking {
                profile,
                subcommand: subcommand_for(reports_running(o.stdout@)),
                startup,
            },
            Err(_) => if startup {
                Stage::Halted
            } else {
                Stage::Idle
            },
        },
        _ => stage,
    }
}

/// The tool run that applies a mode succeeded.
pub open spec fn tool_succeeded(out: Result<ToolOutput, String>) -> bool {
    out matches Ok(o) && o.succeeded()
}

/// The stage after the outcome of the tool run that applies a mode.
pub open spec fn tool_stage(stage: Stage, out: Result<ToolOutput, String>) -> Stage {
    match stage {
        Stage::Invoking { startup, .. } => if tool_succeeded(out) || !startup {
            Stage::Idle
        } else {
            Stage::Halted
        },
        _ => stage,
    }
}

/// The last applied profile after the outcome of the tool run that applies a mode.
pub open spec fn tool_last(stage: Stage, last: Option<Profile>, out: Result<ToolOutput, String>) -> Option<Profile> {
    match stage {
        Stage::Invoking { profile, .. } => if tool_succeeded(out) {
            Some(profile)
        } else {
            last
        },
        _ => last,
    }
}

/// `n` is the warning that a run-state query with output `o` leaves.
pub open spec fn is_probe_warning(n: Notice, o: ToolOutput) -> bool {
    n matches Notice::ProbeExit { code, stderr } && code == exit_code_of(o.code) && stderr@
        == trimmed_of(o.stderr@)
}

/// `n` logs that `mode` is being applied with `sub`.
pub open spec fn is_applying(n: Notice, sub: Subcommand, mode: Mode) -> bool {
    n matches Notice::Applying { subcommand, sched, args } && subcommand == sub && sched@
        == mode.sched@ && args@ == mode.args@
}

/// `e` is the error of a failed tool run of `sub` with outcome `out`.
pub open spec fn is_tool_failure(e: ApplyError, sub: Subcommand, out: Result<ToolOutput, String>) -> bool {
    match out {
        Err(m) => e matches ApplyError::ExecFailed { subcommand, message } && subcommand == sub
            && message@ == m@,
        Ok(o) => e matches ApplyError::ToolFailed { subcommand, exit_code, stderr } && subcommand
            == sub && exit_code == exit_code_of(o.code) && stderr@ == trimmed_of(o.stderr@),
    }
}

fn one_notice(n: Notice) -> (r: Vec<Notice>)
    ensures
        r@ == seq![n],
{
    let mut r: Vec<Notice> = Vec::new();
    r.push(n);
    assert(r@ =~= seq![n]);
    r
}

impl Reactor {
    /// A reactor that has applied nothing yet.
    pub fn new(config: Config) -> (r: Reactor)
        ensures
            r.config == config,
            r.last_applied is None,
            r.stage == Stage::Idle,
    {
        Reactor { config, last_applied: None, stage: Stage::Idle }
    }

    /// Handles the profile read at startup. A string that names no profile
    /// is logged and the reactor waits for notifications; otherwise applying
    /// the profile's mode begins with the run-state query.
    pub fn startup(&mut self, current: &str) -> (r: Step)
        requires
            old(self).stage == Stage::Idle,
        ensures
            final(self).config == old(self).config,
            final(self).last_applied == old(self).last_applied,
            final(self).stage == startup_stage(current@),
            Profile::parse_spec(current@) matches Some(p) ==> (r.command is RunProbe
                && r.notices@ == seq![Notice::StartupProfile(p)]),
            Profile::parse_spec(current@) is None ==> (r.command is AwaitSignal
                && r.notices@.len() == 1 && (r.notices@[0] matches Notice::StartupUnknown(s)
                && s@ == current@)),
    {
        match Profile::from_str(current) {
            Err(e) => Step { command: Command::AwaitSignal, notices: one_notice(Notice::StartupUnknown(e.value)) },
            Ok(p) => {
                self.stage = Stage::Probing { profile: p, startup: true };
                Step { command: Command::RunProbe, notices: one_notice(Notice::StartupProfile(p)) }
            },
        }
    }

    /// Handles one change notification. Notifications for other interfaces,
    /// or without the watched property, pass silently; a value that is no
    /// profile is logged; a profile equal to the last applied one passes
    /// silently. Any other profile is logged and applying its mode begins.
    pub fn on_signal(&mut self, n: &Notification) -> (r: Step)
        requires
            old(self).stage == Stage::Idle,
        ensures
            r.notices@ == signal_notices(*n, old(self).last_applied),
            signal_target(*n, old(self).last_applied) matches Some(p) ==> (r.command is RunProbe
                && final(self).stage == (Stage::Probing { profile: p, startup: false })
                && final(self).config == old(self).config
                && final(self).last_applied == old(self).last_applied),
            signal_target(*n, old(self).last_applied) is None ==> (r.command is AwaitSignal
                && *final(self) == *old(self)),
            n matches Notification::Changed { interface, .. } && interface@ != watched_interface()
                ==> (r.notices@.len() == 0 && *final(self) == *old(self) && r.command is AwaitSignal),
    {
        let ghost last = self.last_applied;
        let (interface, value) = match n {
            Notification::Undecodable(m) => {
                return Step { command: Command::AwaitSignal, notices: one_notice(Notice::SignalUndecodable(m.clone())) };
            },
            Notification::Changed { interface, active_profile } => (interface, active_profile),
        };
        if !same_text(interface.as_str(), "net.hadess.PowerProfiles") {
            return Step { command: Command::AwaitSignal, notices: Vec::new() };
        }
        let s = match value {
            None => {
                return Step { command: Command::AwaitSignal, notices: Vec::new() };
            },
            Some(PropertyValue::OtherVariant) => {
                return Step { command: Command::AwaitSignal, notices: one_notice(Notice::UnexpectedVariant) };
            },
            Some(PropertyValue::Undecodable(m)) => {
                return Step { command: Command::AwaitSignal, notices: one_notice(Notice::ValueUndecodable(m.clone())) };
            },
            Some(PropertyValue::Str(s)) => s,
        };
        let p = match Profile::from_str(s.as_str()) {
            Err(_) => {
                return Step { command: Command::AwaitSignal, notices: one_notice(Notice::UnknownProfile(s.clone())) };
            },
            Ok(p) => p,
        };
        let duplicate = match self.last_applied {
            Some(q) => q == p,
            None => false,
        };
        if duplicate {
            return Step { command: Command::AwaitSignal, notices: Vec::new() };
        }
        let notices = one_notice(Notice::Transition(p));
        match self.config.mode_for(p) {
            None => {
                let mut notices = notices;
                notices.push(Notice::NoMode(p));
                Step { command: Command::AwaitSignal, notices }
            },
            Some(_) => {
                self.stage = Stage::Probing { profile: p, startup: false };
                Step { command: Command::RunProbe, notices }
            },
        }
    }
    /// The mode for the profile that the pending application is for.
    pub open spec fn pending_mode(&self) -> Mode {
        match self.stage {
            Stage::Probing { profile, .. } => self.config.mode_spec(profile),
            Stage::Invoking { profile, .. } => self.config.mode_spec(profile),
            _ => self.config.mode_spec(Profile::Performance),
        }
    }

    /// Ends a failed application: at startup the daemon stops; later the
    /// failure is logged and the reactor waits for the next notification.
    /// The last applied profile stays as it was.
    fn fail(&mut self, startup: bool, e: ApplyError, notices: Vec<Notice>) -> (r: Step)
        ensures
            final(self).config == old(self).config,
            final(self).last_applied == old(self).last_applied,
            startup ==> (final(self).stage == Stage::Halted && r.notices@ == notices@
                && r.command == Command::Abort(e)),
            !startup ==> (final(self).stage == Stage::Idle && r.notices@ == notices@.push(
                Notice::ApplyFailed(e),
            ) && r.command is AwaitSignal),
    {
        if startup {
            self.stage = Stage::Halted;
            Step { command: Command::Abort(e), notices }
        } else {
            self.stage = Stage::Idle;
            let mut notices = notices;
            notices.push(Notice::ApplyFailed(e));
            Step { command: Command::AwaitSignal, notices }
        }
    }

    /// Handles the outcome of the run-state query: a query that could not
    /// be run fails the application; otherwise the tool run that applies
    /// the pending mode is asked for, `switch` when a scheduler runs and
    /// `start` when none does. A query that exited unsuccessfully is logged
    /// first.
    pub fn on_probe(&mut self, probe: &Result<ToolOutput, String>) -> (r: Step)
        requires
            old(self).stage is Probing,
        ensures
            final(self).config == old(self).config,
            final(self).last_applied == old(self).last_applied,
            final(self).stage == probe_stage(old(self).stage, *probe),
            probe matches Ok(o) ==> (r.command matches Command::RunTool(argv) && texts(argv@)
                == argv_spec(subcommand_for(reports_running(o.stdout@)), old(self).pending_mode())),
            probe matches Ok(o) ==> (o.succeeded() ==> (r.notices@.len() == 1 && is_applying(
                r.notices@[0],
                subcommand_for(reports_running(o.stdout@)),
                old(self).pending_mode(),
            ))),
            probe matches Ok(o) ==> (!o.succeeded() ==> (r.notices@.len() == 2 && is_probe_warning(
                r.notices@[0],
                *o,
            ) && is_applying(
                r.notices@[1],
                subcommand_for(reports_running(o.stdout@)),
                old(self).pending_mode(),
            ))),
            probe matches Err(m) ==> (old(self).stage->Probing_startup ==> (r.notices@.len() == 0
                && (r.command matches Command::Abort(ApplyError::ProbeFailed { message }) && message@ == m@))),
            probe matches Err(m) ==> (!old(self).stage->Probing_startup ==> (r.command is AwaitSignal
                && r.notices@.len() == 1
                && (r.notices@[0] matches Notice::ApplyFailed(ApplyError::ProbeFailed { message }) && message@ == m@))),
    {
        let (profile, startup) = match self.stage {
            Stage::Probing { profile, startup } => (profile, startup),
            _ => (Profile::Performance, false),
        };
        let mut notices: Vec<Notice> = Vec::new();
        if let Ok(o) = probe {
            if let Some((code, stderr)) = probe_warning(o) {
                notices.push(Notice::ProbeExit { code, stderr });
            }
        }
        let mode = match self.config.mode_for(profile) {
            Some(m) => m,
            None => {
                notices.push(Notice::NoMode(profile));
                self.stage = Stage::Idle;
                return Step { command: Command::AwaitSignal, notices };
            },
        };
        match apply_mode(mode, probe) {
            Err(e) => self.fail(startup, e, notices),
            Ok(call) => {
                notices.push(Notice::Applying {
                    subcommand: call.subcommand,
                    sched: mode.sched.clone(),
                    args: mode.args.clone(),
                });
                self.stage = Stage::Invoking { profile, subcommand: call.subcommand, startup };
                Step { command: Command::RunTool(call.argv), notices }
            },
        }
    }

    /// Handles the outcome of the tool run that applies the pending mode. On
    /// success the profile becomes the last applied one and what the tool
    /// printed is logged; a failure at startup stops the daemon, a later one
    /// is logged. A failure leaves the last applied profile as it was.
    pub fn on_tool(&mut self, out: &Result<ToolOutput, String>) -> (r: Step)
        requires
            old(self).stage is Invoking,
        ensures
            final(self).config == old(self).config,
            final(self).last_applied == tool_last(old(self).stage, old(self).last_applied, *out),
            final(self).stage == tool_stage(old(self).stage, *out),
            tool_succeeded(*out) ==> (r.command is AwaitSignal && (if trimmed_of(out->Ok_0.stdout@).len() == 0 {
                r.notices@.len() == 0
            } else {
                (r.notices@.len() == 1 && (r.notices@[0] matches Notice::ToolStdout(s) && s@ == trimmed_of(out->Ok_0.stdout@)))
            })),
            !tool_succeeded(*out) && old(self).stage->Invoking_startup ==> (r.notices@.len() == 0
                && (r.command matches Command::Abort(e) && is_tool_failure(e, old(self).stage->Invoking_subcommand, *out))),
            !tool_succeeded(*out) && !old(self).stage->Invoking_startup ==> (r.command is AwaitSignal
                && r.notices@.len() == 1
                && (r.notices@[0] matches Notice::ApplyFailed(e) && is_tool_failure(e, old(self).stage->Invoking_subcommand, *out))),
    {
        let (profile, subcommand, startup) = match self.stage {
            Stage::Invoking { profile, subcommand, startup } => (profile, subcommand, startup),
            _ => (Profile::Performance, Subcommand::Start, false),
        };
        match finish_apply(subcommand, out) {
            Ok(shown) => {
                self.last_applied = Some(profile);
                self.stage = Stage::Idle;
                let notices = match shown {
                    Some(s) => one_notice(Notice::ToolStdout(s)),
                    None => Vec::new(),
                };
                Step { command: Command::AwaitSignal, notices }
            },
            Err(e) => self.fail(startup, e, Vec::new()),
        }
    }
}

} // verus!

verus! {

/// A notification that reports the last applied profile again asks for
/// nothing and logs nothing: no mode is applied and the state stays.
pub proof fn lemma_duplicate_ignored(n: Notification, last: Option<Profile>)
    requires
        last is Some,
        reported_profile(n) == last,
    ensures
        signal_target(n, last) is None,
        signal_notices(n, last) == Seq::<Notice>::empty(),
{
}

/// A notification for another interface asks for nothing and logs nothing.
pub proof fn lemma_foreign_interface_ignored(n: Notification, last: Option<Profile>)
    requires
        n matches Notification::Changed { interface, .. } && interface@ != watched_interface(),
    ensures
        signal_target(n, last) is None,
        signal_notices(n, last) == Seq::<Notice>::empty(),
{
}

/// A notification that reports a profile other than the last applied one
/// begins applying that profile's mode with one run-state query; after the
/// query, one tool run for that mode is pending; when it succeeds the
/// profile becomes the last applied one, and when it fails the last applied
/// profile stays.
pub proof fn lemma_new_profile_applied(
    n: Notification,
    last: Option<Profile>,
    o: ToolOutput,
    out: Result<ToolOutput, String>,
)
    requires
        reported_profile(n) is Some,
        reported_profile(n) != last,
    ensures
        signal_target(n, last) == reported_profile(n),
        ({
            let probing = Stage::Probing { profile: reported_profile(n)->0, startup: false };
            let invoking = probe_stage(probing, Ok(o));
            &&& invoking == (Stage::Invoking {
                profile: reported_profile(n)->0,
                subcommand: subcommand_for(reports_running(o.stdout@)),
                startup: false,
            })
            &&& tool_stage(invoking, out) == Stage::Idle
            &&& tool_succeeded(out) ==> tool_last(invoking, last, out) == reported_profile(n)
            &&& !tool_succeeded(out) ==> tool_last(invoking, last, out) == last
        }),
{
}

/// A failed tool run leaves the last applied profile as it was, whether at
/// startup or later.
pub proof fn lemma_failure_keeps_last(stage: Stage, last: Option<Profile>, out: Result<ToolOutput, String>)
    requires
        !tool_succeeded(out),
    ensures
        tool_last(stage, last, out) == last,
{
}

/// At startup, a string that names a profile begins applying its mode; once
/// the query has answered, exactly one tool run is pending, `start` when the
/// query found no scheduler running; after its outcome no tool run is
/// pending, and the reactor waits for notifications or, after a failure,
/// stops.
pub proof fn lemma_startup_applies_once(raw: Seq<char>, o: ToolOutput, out: Result<ToolOutput, String>)
    requires
        Profile::parse_spec(raw) is Some,
    ensures
        ({
            let p = Profile::parse_spec(raw)->0;
            let invoking = probe_stage(startup_stage(raw), Ok(o));
            &&& startup_stage(raw) == (Stage::Probing { profile: p, startup: true })
            &&& !reports_running(o.stdout@) ==> invoking == (Stage::Invoking {
                profile: p,
                subcommand: Subcommand::Start,
                startup: true,
            })
            &&& tool_succeeded(out) ==> tool_stage(invoking, out) == Stage::Idle
            &&& !tool_succeeded(out) ==> tool_stage(invoking, out) == Stage::Halted
        }),
{
}

} // verus!
