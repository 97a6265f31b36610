//! The action dispatcher: from an action and what is known of the host to the
//! process to start and what to do when it has ended.

use vstd::prelude::*;
use crate::action::{app_escalates, Action};
use crate::command::{build, build_spec, has_row, wrapper_agnostic, CommandModel};
use crate::config::{words, Config};
use crate::environment::{app_command, app_line_spec};
use crate::launcher::{argv_spec, invocation, lemma_invocation_shape, Invocation};
use crate::reaper::{reap, removal_spec};
use crate::wrapper::{probe, select_spec, Presence, Wrapper};

verus! {

/// What was found on the host for one dispatch.
#[derive(Debug, PartialEq, Eq)]
pub struct Host {
    /// Which front-ends are installed.
    pub wrappers: Presence,
    /// Whether the lock file of the package database exists.
    pub lock_present: bool,
    /// What the lookup of the application's executable printed, if it found
    /// the executable: its path and a line break.
    pub executable: Option<String>,
    /// The user's environment, as names and values.
    pub variables: Vec<(String, String)>,
}

/// What the worker does when the process it started has ended.
#[derive(Clone, Copy, Debug, PartialEq, Eq, Structural)]
pub enum Followup {
    /// Nothing: the exit status is of no interest.
    Discard,
    /// Report the exit status over the completion bridge.
    ReportExit,
    /// Look for the lock file again, and tell the user if it is gone.
    RecheckLock,
}

/// The outcome of a dispatch.
#[derive(Debug, PartialEq, Eq)]
pub enum Plan {
    /// The event is dropped: no process, no message.
    Nothing,
    /// A worker is to start this process and wait for it.
    Spawn { process: Invocation, followup: Followup },
}

/// The mathematical content of a `Plan`.
pub enum PlanModel {
    Nothing,
    Spawn { argv: Seq<Seq<char>>, followup: Followup },
}

impl View for Plan {
    type V = PlanModel;

    open spec fn view(&self) -> PlanModel {
        match *self {
            Plan::Nothing => PlanModel::Nothing,
            Plan::Spawn { process, followup } => PlanModel::Spawn { argv: process@, followup },
        }
    }
}

/// The command that `action` runs on `host`, where it runs one.
pub open spec fn command_spec(action: Action, host: Host, config: Config) -> Option<CommandModel> {
    match action {
        Action::RemoveDbLock => if host.lock_present {
            Some(removal_spec(config))
        } else {
            None
        },
        Action::LaunchApp(app) => match host.executable {
            Some(found) => Some(
                CommandModel {
                    line: app_line_spec(host.variables@, found@),
                    escalate: app_escalates(app),
                },
            ),
            None => None,
        },
        _ => build_spec(action, select_spec(host.wrappers)),
    }
}

/// What follows the end of the process that `action` starts.
pub open spec fn followup_spec(action: Action) -> Followup {
    match action {
        Action::RemoveDbLock => Followup::RecheckLock,
        Action::LaunchApp(_) => Followup::ReportExit,
        _ => Followup::Discard,
    }
}

/// The plan for `action` on `host`.
pub open spec fn dispatch_spec(action: Action, host: Host, config: Config) -> PlanModel {
    match command_spec(action, host, config) {
        Some(command) => PlanModel::Spawn {
            argv: argv_spec(command, config),
            followup: followup_spec(action),
        },
        None => PlanModel::Nothing,
    }
}

impl Host {
    /// A host on which nothing was found: no front-end, no lock, no
    /// executable, an empty environment.
    pub fn bare() -> (host: Host)
        ensures
            host.wrappers == (Presence { pak: false, yay: false, paru: false }),
            !host.lock_present,
            host.executable is None,
            host.variables@.len() == 0,
    {
        Host {
            wrappers: Presence::none(),
            lock_present: false,
            executable: None,
            variables: Vec::new(),
        }
    }
}

/// Decides what one action event leads to. Removing the lock goes to the lock
/// reaper and happens only where there is a lock. An application is started
/// only where the lookup found its executable. Every other action is built
/// for the front-end that the host has and handed to the launcher. The call
/// starts nothing itself and returns at once with the plan.
pub fn dispatch(action: Action, host: &Host, config: &Config) -> (plan: Plan)
    ensures
        plan@ == dispatch_spec(action, *host, *config),
{
    match action {
        Action::RemoveDbLock => match reap(host.lock_present, config) {
            Some(process) => Plan::Spawn { process, followup: Followup::RecheckLock },
            None => Plan::Nothing,
        },
        Action::LaunchApp(app) => match &host.executable {
            Some(found) => {
                let command = app_command(app, found.as_str(), &host.variables);
                let process = invocation(&command, config);
                Plan::Spawn { process, followup: Followup::ReportExit }
            },
            None => Plan::Nothing,
        },
        _ => {
            let wrapper = probe(host.wrappers);
            match build(action, wrapper) {
                Some(command) => {
                    let process = invocation(&command, config);
                    Plan::Spawn { process, followup: Followup::Discard }
                },
                None => Plan::Nothing,
            }
        },
    }
}

/// Every maintenance action of the table leads to exactly one process,
/// whatever the host looks like; the lock is touched exactly when it exists;
/// an application starts exactly when its executable was found.
pub proof fn lemma_dispatch_spawns(action: Action, host: Host, config: Config)
    ensures
        has_row(action) ==> dispatch_spec(action, host, config) is Spawn,
        action == Action::RemoveDbLock ==> (dispatch_spec(action, host, config) is Spawn
            <==> host.lock_present),
        action is LaunchApp ==> (dispatch_spec(action, host, config) is Spawn
            <==> host.executable is Some),
{
}

/// The escalation helper takes part in a maintenance action exactly when the
/// host has none of pak, yay and paru, or the action is one that pacman
/// always carries out itself. It then leads the argument vector, and the
/// terminal emulator takes no part.
pub proof fn lemma_dispatch_helper(action: Action, host: Host, config: Config)
    requires
        has_row(action),
    ensures
        dispatch_spec(action, host, config) is Spawn,
        (select_spec(host.wrappers) == Wrapper::Pacman || wrapper_agnostic(action))
            ==> dispatch_spec(action, host, config)->argv == seq![
            config.helper@,
            config.shell@,
            "-c"@,
            build_spec(action, select_spec(host.wrappers))->Some_0.line,
        ],
        !(select_spec(host.wrappers) == Wrapper::Pacman || wrapper_agnostic(action))
            ==> dispatch_spec(action, host, config)->argv == words(config.terminal@) + seq![
            config.shell@,
            "-c"@,
            build_spec(action, select_spec(host.wrappers))->Some_0.line,
        ],
{
    let command = build_spec(action, select_spec(host.wrappers))->Some_0;
    lemma_invocation_shape(command, config);
}

} // verus!
