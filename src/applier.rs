//! The mode applier: reads the control tool's run-state report, chooses
//! `start` or `switch`, builds the tool's arguments and classifies its result.
//!
//! Running the tool is left to the caller: `apply_mode` turns the probe's
//! outcome into the invocation to run, and `finish_apply` turns that
//! invocation's outcome into the applier's result.
use vstd::prelude::*;

use crate::mode_table::Mode;
use crate::text::{contains_seq, contains_text, lower_of, lowercase, trim_text, trimmed_of};

verus! {

/// What one run of the control tool produced: its exit code (none when it
/// was killed by a signal) and its output, decoded as text.
#[derive(Debug)]
pub struct ToolOutput {
    pub code: Option<i32>,
    pub stdout: String,
    pub stderr: String,
}

impl ToolOutput {
    /// The run succeeded: it exited with status zero.
    pub open spec fn succeeded(&self) -> bool {
        self.code == Some(0i32)
    }
}

/// The control tool's subcommand that applies a mode.
#[derive(Debug, Clone, Copy, PartialEq, Eq, Structural)]
pub enum Subcommand {
    /// Used when no scheduler is running.
    Start,
    /// Used when a scheduler is already running.
    Switch,
}

impl Subcommand {
    pub open spec fn token(self) -> Seq<char> {
        match self {
            Subcommand::Start => "start"@,
            Subcommand::Switch => "switch"@,
        }
    }

    pub fn as_str(self) -> (r: &'static str)
        ensures
            r@ == self.token(),
    {
        match self {
            Subcommand::Start => "start",
            Subcommand::Switch => "switch",
        }
    }
}

/// Why applying a mode failed.
#[derive(Debug)]
pub enum ApplyError {
    /// The run-state query could not be run at all.
    ProbeFailed { message: String },
    /// The applying subcommand could not be run at all.
    ExecFailed { subcommand: Subcommand, message: String },
    /// The applying subcommand ran and exited unsuccessfully.
    ToolFailed { subcommand: Subcommand, exit_code: i32, stderr: String },
}

/// The control tool's words for "nothing is running", in lowercase.
pub open spec fn idle_marker() -> Seq<char> {
    "no scx scheduler running"@
}

/// A lowercased run-state report says that a scheduler is running: it does
/// not hold the idle marker.
pub open spec fn lowered_reports_running(lowered: Seq<char>) -> bool {
    !contains_seq(lowered, idle_marker())
}

/// A run-state report says that a scheduler is running, ignoring case.
pub open spec fn reports_running(stdout: Seq<char>) -> bool {
    lowered_reports_running(lower_of(stdout))
}

/// The exit code that an error reports: the process's own, or -1 when it had none.
pub open spec fn exit_code_of(code: Option<i32>) -> i32 {
    match code {
        Some(c) => c,
        None => -1i32,
    }
}

/// The subcommand for a run state.
pub open spec fn subcommand_for(running: bool) -> Subcommand {
    if running {
        Subcommand::Switch
    } else {
        Subcommand::Start
    }
}

/// The control tool's arguments that apply `mode` with `sub`; the whole
/// argument string stays one argument.
pub open spec fn argv_spec(sub: Subcommand, mode: Mode) -> Seq<Seq<char>> {
    seq![sub.token(), "--sched"@, mode.sched@, "--args="@ + mode.args@]
}

/// The views of a list of strings.
pub open spec fn texts(v: Seq<String>) -> Seq<Seq<char>> {
    v.map_values(|s: String| s@)
}

/// One run of the control tool that applies a mode.
#[derive(Debug)]
pub struct ScxCall {
    pub subcommand: Subcommand,
    pub argv: Vec<String>,
}

/// A report whose lowercase form holds the idle marker means that nothing
/// runs, so applying starts a scheduler; an empty report means that one
/// runs, so applying switches.
pub proof fn lemma_subcommand_from_report(stdout: Seq<char>)
    ensures
        contains_seq(lower_of(stdout), idle_marker()) ==> subcommand_for(reports_running(stdout))
            == Subcommand::Start,
        !contains_seq(lower_of(stdout), idle_marker()) ==> subcommand_for(reports_running(stdout))
            == Subcommand::Switch,
        stdout.len() == 0 && lower_of(stdout).len() == 0 ==> subcommand_for(reports_running(stdout))
            == Subcommand::Switch,
{
    if stdout.len() == 0 && lower_of(stdout).len() == 0 {
        reveal_strlit("no scx scheduler running");
        assert(!contains_seq(lower_of(stdout), idle_marker()));
    }
}

/// Whether an already lowercased run-state report says that a scheduler is running.
pub fn running_from_lowered(lowered: &str) -> (r: bool)
    ensures
        r == lowered_reports_running(lowered@),
{
    !contains_text(lowered, "no scx scheduler running")
}

/// Reads the outcome of the run-state query. A query that could not be run
/// is an error; one that ran is read from its output alone, whatever its
/// exit status: a scheduler runs unless the output holds the idle marker in
/// any case.
pub fn scx_running(probe: &Result<ToolOutput, String>) -> (r: Result<bool, ApplyError>)
    ensures
        probe matches Ok(o) ==> r == Ok::<bool, ApplyError>(reports_running(o.stdout@)),
        probe matches Err(m) ==> r matches Err(ApplyError::ProbeFailed { message }) && message@
            == m@,
{
    match probe {
        Ok(o) => {
            let lowered = lowercase(o.stdout.as_str());
            Ok(running_from_lowered(lowered.as_str()))
        },
        Err(m) => Err(ApplyError::ProbeFailed { message: m.clone() }),
    }
}

/// The warning that a run-state query with a failing exit status leaves:
/// its exit code and its trimmed error output.
pub fn probe_warning(o: &ToolOutput) -> (r: Option<(i32, String)>)
    ensures
        o.succeeded() ==> r is None,
        !o.succeeded() ==> (r matches Some((code, err)) && code == exit_code_of(o.code) && err@
            == trimmed_of(o.stderr@)),
{
    if o.code == Some(0i32) {
        None
    } else {
        let code = match o.code {
            Some(c) => c,
            None => -1i32,
        };
        Some((code, trim_text(o.stderr.as_str())))
    }
}

/// The control tool's arguments that apply `mode` with `sub`.
pub fn scx_argv(sub: Subcommand, mode: &Mode) -> (r: Vec<String>)
    ensures
        texts(r@) == argv_spec(sub, *mode),
{
    let mut full = "--args=".to_owned();
    full.append(mode.args.as_str());
    let mut r: Vec<String> = Vec::new();
    r.push(sub.as_str().to_owned());
    r.push("--sched".to_owned());
    r.push(mode.sched.clone());
    r.push(full);
    assert(texts(r@) =~= argv_spec(sub, *mode));
    r
}

/// Begins applying `mode`, given the outcome of the run-state query: the
/// query's failure is the applier's; otherwise the invocation to run is
/// `switch` when a scheduler runs and `start` when none does.
pub fn apply_mode(mode: &Mode, probe: &Result<ToolOutput, String>) -> (r: Result<ScxCall, ApplyError>)
    ensures
        probe matches Err(m) ==> r matches Err(ApplyError::ProbeFailed { message }) && message@
            == m@,
        probe matches Ok(o) ==> r matches Ok(call) && call.subcommand == subcommand_for(
            reports_running(o.stdout@),
        ) && texts(call.argv@) == argv_spec(call.subcommand, *mode),
{
    match scx_running(probe) {
        Err(e) => Err(e),
        Ok(running) => {
            let subcommand = if running {
                Subcommand::Switch
            } else {
                Subcommand::Start
            };
            let argv = scx_argv(subcommand, mode);
            Ok(ScxCall { subcommand, argv })
        },
    }
}

/// Ends applying a mode, given the outcome of running subcommand `sub`. On
/// success the result is the trimmed standard output, when there is any.
pub fn finish_apply(sub: Subcommand, out: &Result<ToolOutput, String>) -> (r: Result<
    Option<String>,
    ApplyError,
>)
    ensures
        out matches Err(m) ==> r matches Err(ApplyError::ExecFailed { subcommand, message })
            && subcommand == sub && message@ == m@,
        out matches Ok(o) ==> (o.succeeded() ==> (r matches Ok(shown) && (if trimmed_of(
            o.stdout@,
        ).len() == 0 {
            shown is None
        } else {
            (shown matches Some(s) && s@ == trimmed_of(o.stdout@))
        }))),
        out matches Ok(o) ==> (!o.succeeded() ==> (r matches Err(
            ApplyError::ToolFailed { subcommand, exit_code, stderr },
        ) && subcommand == sub && exit_code == exit_code_of(o.code) && stderr@ == trimmed_of(
            o.stderr@,
        ))),
{
    match out {
        Err(m) => Err(ApplyError::ExecFailed { subcommand: sub, message: m.clone() }),
        Ok(o) => {
            let stdout = trim_text(o.stdout.as_str());
            let stderr = trim_text(o.stderr.as_str());
            if o.code == Some(0i32) {
                if stdout.as_str().is_empty() {
                    Ok(None)
                } else {
                    Ok(Some(stdout))
                }
            } else {
                let exit_code = match o.code {
                    Some(c) => c,
                    None => -1i32,
                };
                Err(ApplyError::ToolFailed { subcommand: sub, exit_code, stderr })
            }
        },
    }
}

} // verus!
