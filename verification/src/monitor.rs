//! What the host's window shows besides the peers: the settings, the log,
//! and how the commands that were started for a build have ended.

use crate::config::Config;
use vstd::prelude::*;
use vstd::string::StringExecFns;

verus! {

/// How the build stands.
#[derive(Clone, Copy, Debug, PartialEq, Eq, Structural)]
pub enum BuildStatus {
    /// No command has decided it yet.
    Undecided,
    /// Every command that was waited for has succeeded.
    Success,
    /// A command has failed.
    Fail,
}

impl BuildStatus {
    /// The line that the window shows for this status.
    pub open spec fn line(self) -> Seq<char> {
        match self {
            BuildStatus::Undecided => ""@,
            BuildStatus::Success => "Build succeeded."@,
            BuildStatus::Fail => "Build failed!"@,
        }
    }

    pub fn label(&self) -> (text: &'static str)
        ensures
            text@ == self.line(),
    {
        match self {
            BuildStatus::Undecided => "",
            BuildStatus::Success => "Build succeeded.",
            BuildStatus::Fail => "Build failed!",
        }
    }
}

/// The build status after one more command has ended, when `pending`
/// commands were still waited for: a failure fails the build, and the last
/// success of those waited for makes it succeed.
pub open spec fn status_after(status: BuildStatus, pending: int, succeeded: bool) -> BuildStatus {
    if !succeeded {
        BuildStatus::Fail
    } else if pending == 1 {
        BuildStatus::Success
    } else {
        status
    }
}

/// How many commands are still waited for after one more has ended: one
/// fewer after a success, none after a failure.
pub open spec fn pending_after(pending: int, succeeded: bool) -> int {
    if succeeded {
        pending - 1
    } else {
        0
    }
}

/// The state behind the host's window.
pub struct App {
    pub config: Config,
    pub option1_enabled: bool,
    pub option2_enabled: bool,
    /// The text of the log pane.
    pub terminal_output: String,
    pub build_status: BuildStatus,
    /// How many commands are still waited for.
    pub pending_cmd_count: i32,
}

impl App {
    /// The state of a host that has just started with the given settings:
    /// both options off, an empty log, no build under way.
    pub fn new(config: Config) -> (app: App)
        ensures
            app.config@ == config@,
            !app.option1_enabled,
            !app.option2_enabled,
            app.terminal_output@ == Seq::<char>::empty(),
            app.build_status == BuildStatus::Undecided,
            app.pending_cmd_count == 0,
    {
        App {
            config,
            option1_enabled: false,
            option2_enabled: false,
            terminal_output: String::new(),
            build_status: BuildStatus::Undecided,
            pending_cmd_count: 0,
        }
    }

    /// Takes the result of one command that has ended: its output goes to
    /// the end of the log, and the build status follows.
    pub fn record_result(&mut self, output: &str, succeeded: bool)
        requires
            old(self).pending_cmd_count > i32::MIN,
        ensures
            final(self).terminal_output@ == old(self).terminal_output@ + output@,
            final(self).build_status == status_after(
                old(self).build_status,
                old(self).pending_cmd_count as int,
                succeeded,
            ),
            final(self).pending_cmd_count == pending_after(
                old(self).pending_cmd_count as int,
                succeeded,
            ),
            final(self).config@ == old(self).config@,
            final(self).option1_enabled == old(self).option1_enabled,
            final(self).option2_enabled == old(self).option2_enabled,
    {
        if succeeded {
            self.pending_cmd_count = self.pending_cmd_count - 1;
            if self.pending_cmd_count == 0 {
                self.build_status = BuildStatus::Success;
            }
        } else {
            self.build_status = BuildStatus::Fail;
            self.pending_cmd_count = 0;
        }
        self.terminal_output.append(output);
    }
}

/// What a command's two streams say of how it ended: the text to log and
/// whether it succeeded. A command that wrote to its error stream has
/// failed, and what it wrote there is logged; else its output is.
pub open spec fn outcome_of(output: Seq<char>, errors: Seq<char>) -> (Seq<char>, bool) {
    if errors.len() == 0 {
        (output, true)
    } else {
        (errors, false)
    }
}

/// The text to log for a command that has ended, and whether it succeeded.
pub fn command_outcome(output: &str, errors: &str) -> (outcome: (String, bool))
    ensures
        (outcome.0@, outcome.1) == outcome_of(output@, errors@),
{
    if errors.is_empty() {
        (String::from_str(output), true)
    } else {
        (String::from_str(errors), false)
    }
}

} // verus!
