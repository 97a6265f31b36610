//! The command builder: from an action and the front-end in use to the shell
//! line that performs the action.

use vstd::prelude::*;
use vstd::string::*;
use crate::action::Action;
use crate::wrapper::Wrapper;

verus! {

/// A shell line together with the decision whether it has to run through the
/// privilege-escalation helper.
#[derive(Debug, PartialEq, Eq)]
pub struct Command {
    pub shell_line: String,
    pub escalate: bool,
}

/// The mathematical content of a `Command`.
pub struct CommandModel {
    pub line: Seq<char>,
    pub escalate: bool,
}

impl View for Command {
    type V = CommandModel;

    open spec fn view(&self) -> CommandModel {
        CommandModel { line: self.shell_line@, escalate: self.escalate }
    }
}

/// Whether the command builder knows `action`. Removing the database lock and
/// launching an application are handled elsewhere.
pub open spec fn has_row(action: Action) -> bool {
    action == Action::UpdateSystem || action == Action::ClearCache || action
        == Action::ReinstallAll || action == Action::RemoveOrphans
}

/// Whether `action` is always carried out by pacman itself, whichever
/// front-end is installed.
pub open spec fn wrapper_agnostic(action: Action) -> bool {
    action == Action::ReinstallAll || action == Action::RemoveOrphans
}

/// Whether the front-end `wrapper` has a command of its own for `action`.
pub open spec fn has_cell(action: Action, wrapper: Wrapper) -> bool {
    has_row(action) && (wrapper == Wrapper::Pacman || !wrapper_agnostic(action))
}

/// The command for `action` under `wrapper`, as a table.
pub open spec fn build_spec(action: Action, wrapper: Wrapper) -> Option<CommandModel> {
    match action {
        Action::UpdateSystem => Some(
            match wrapper {
                Wrapper::Pak => CommandModel { line: "pak -Syu"@, escalate: false },
                Wrapper::Yay => CommandModel { line: "yay -Syu"@, escalate: false },
                Wrapper::Paru => CommandModel { line: "paru --removemake -Syu"@, escalate: false },
                Wrapper::Pacman => CommandModel { line: "pacman -Syu"@, escalate: true },
            },
        ),
        Action::ClearCache => Some(
            match wrapper {
                Wrapper::Pak => CommandModel { line: "pak -Sc"@, escalate: false },
                Wrapper::Yay => CommandModel { line: "yay -Sc"@, escalate: false },
                Wrapper::Paru => CommandModel { line: "paru -Sc"@, escalate: false },
                Wrapper::Pacman => CommandModel { line: "pacman -Sc"@, escalate: true },
            },
        ),
        Action::ReinstallAll => Some(
            CommandModel { line: "pacman -S $(pacman -Qnq)"@, escalate: true },
        ),
        Action::RemoveOrphans => Some(
            CommandModel { line: "pacman -Rns $(pacman -Qtdq)"@, escalate: true },
        ),
        Action::RemoveDbLock => None,
        Action::LaunchApp(_) => None,
    }
}

impl Clone for Command {
    fn clone(&self) -> (copy: Command)
        ensures
            copy@ == self@,
    {
        Command { shell_line: self.shell_line.clone(), escalate: self.escalate }
    }
}

impl Command {
    /// A command from its two parts.
    pub fn new(shell_line: String, escalate: bool) -> (command: Command)
        ensures
            command@ == (CommandModel { line: shell_line@, escalate }),
    {
        Command { shell_line, escalate }
    }
}

/// A command made of a literal shell line.
fn literal(line: &str, escalate: bool) -> (command: Command)
    ensures
        command@ == (CommandModel { line: line@, escalate }),
{
    Command { shell_line: String::from_str(line), escalate }
}

/// Builds the command for a maintenance action. Returns a command exactly for
/// the four actions of the table; the shell substitutions in the lines are
/// left for the shell to expand when it runs.
pub fn build(action: Action, wrapper: Wrapper) -> (command: Option<Command>)
    ensures
        match command {
            Some(c) => build_spec(action, wrapper) == Some(c@),
            None => build_spec(action, wrapper) is None,
        },
        command is Some <==> has_row(action),
{
    match action {
        Action::UpdateSystem => Some(
            match wrapper {
                Wrapper::Pak => literal("pak -Syu", false),
                Wrapper::Yay => literal("yay -Syu", false),
                Wrapper::Paru => literal("paru --removemake -Syu", false),
                Wrapper::Pacman => literal("pacman -Syu", true),
            },
        ),
        Action::ClearCache => Some(
            match wrapper {
                Wrapper::Pak => literal("pak -Sc", false),
                Wrapper::Yay => literal("yay -Sc", false),
                Wrapper::Paru => literal("paru -Sc", false),
                Wrapper::Pacman => literal("pacman -Sc", true),
            },
        ),
        Action::ReinstallAll => Some(literal("pacman -S $(pacman -Qnq)", true)),
        Action::RemoveOrphans => Some(literal("pacman -Rns $(pacman -Qtdq)", true)),
        Action::RemoveDbLock => None,
        Action::LaunchApp(_) => None,
    }
}

/// Every shell line of the table has at least one character.
proof fn lemma_lines_nonempty()
    ensures
        forall|action: Action, wrapper: Wrapper|
            has_row(action) ==> (#[trigger] build_spec(action, wrapper))->Some_0.line.len() > 0,
{
    reveal_strlit("pak -Syu");
    reveal_strlit("yay -Syu");
    reveal_strlit("paru --removemake -Syu");
    reveal_strlit("pacman -Syu");
    reveal_strlit("pak -Sc");
    reveal_strlit("yay -Sc");
    reveal_strlit("paru -Sc");
    reveal_strlit("pacman -Sc");
    reveal_strlit("pacman -S $(pacman -Qnq)");
    reveal_strlit("pacman -Rns $(pacman -Qtdq)");
}

/// For every action of the table and every front-end there is exactly one
/// command; its shell line is not empty, and it escalates exactly when pacman
/// itself carries the action out, be it as the fallback or because the action
/// is always pacman's.
pub proof fn lemma_build_total(action: Action, wrapper: Wrapper)
    requires
        has_row(action),
    ensures
        build_spec(action, wrapper) is Some,
        build_spec(action, wrapper)->Some_0.line.len() > 0,
        build_spec(action, wrapper)->Some_0.escalate == (wrapper == Wrapper::Pacman
            || wrapper_agnostic(action)),
{
    lemma_lines_nonempty();
}

/// With pacman as the front-end every command of the table escalates.
pub proof fn lemma_pacman_escalates(action: Action)
    requires
        has_row(action),
    ensures
        build_spec(action, Wrapper::Pacman) is Some,
        build_spec(action, Wrapper::Pacman)->Some_0.escalate,
{
}

/// A command that belongs to pak, yay or paru never escalates: those
/// front-ends raise privilege on their own.
pub proof fn lemma_wrapper_commands_do_not_escalate(action: Action, wrapper: Wrapper)
    requires
        wrapper != Wrapper::Pacman,
        has_cell(action, wrapper),
    ensures
        build_spec(action, wrapper) is Some,
        !build_spec(action, wrapper)->Some_0.escalate,
{
}

/// Reinstalling all packages and removing orphans yield the same command
/// under every front-end.
pub proof fn lemma_agnostic_actions_ignore_wrapper(action: Action, a: Wrapper, b: Wrapper)
    requires
        wrapper_agnostic(action),
    ensures
        build_spec(action, a) == build_spec(action, b),
        build_spec(action, a)->Some_0.escalate,
{
}

} // verus!
