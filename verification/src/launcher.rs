//! The terminal launcher's decision: which process runs a command.

use vstd::prelude::*;
use vstd::string::*;
use crate::command::{Command, CommandModel};
use crate::config::{words, Config};

verus! {

/// A process to start: a program and the arguments handed to it.
#[derive(Debug, PartialEq, Eq)]
pub struct Invocation {
    pub program: String,
    pub args: Vec<String>,
}

impl View for Invocation {
    type V = Seq<Seq<char>>;

    /// The argument vector: the program, then its arguments.
    open spec fn view(&self) -> Seq<Seq<char>> {
        seq![self.program@] + words(self.args@)
    }
}

/// The three words that make a shell run one command line.
pub open spec fn shell_words(config: Config, line: Seq<char>) -> Seq<Seq<char>> {
    seq![config.shell@, "-c"@, line]
}

/// The argument vector that runs `command`: under the escalation helper when
/// the command escalates, else inside the terminal emulator.
pub open spec fn argv_spec(command: CommandModel, config: Config) -> Seq<Seq<char>> {
    if command.escalate {
        seq![config.helper@] + shell_words(config, command.line)
    } else {
        words(config.terminal@) + shell_words(config, command.line)
    }
}

/// The strings `shell`, `-c` and the command line.
fn shell_tail(command: &Command, config: &Config) -> (tail: Vec<String>)
    ensures
        words(tail@) == shell_words(*config, command@.line),
{
    let mut tail: Vec<String> = Vec::new();
    tail.push(config.shell.clone());
    tail.push(String::from_str("-c"));
    tail.push(command.shell_line.clone());
    assert(words(tail@) =~= shell_words(*config, command@.line));
    tail
}

/// Decides how `command` is started. The process is the escalation helper
/// running the shell when the command escalates; else it is the terminal
/// emulator running the shell, or the shell alone where no terminal is
/// configured. In each case the shell receives the line unchanged.
pub fn invocation(command: &Command, config: &Config) -> (process: Invocation)
    ensures
        process@ == argv_spec(command@, *config),
{
    let tail = shell_tail(command, config);
    if command.escalate {
        let process = Invocation { program: config.helper.clone(), args: tail };
        assert(process@ =~= argv_spec(command@, *config));
        process
    } else if config.terminal.len() == 0 {
        let mut args: Vec<String> = Vec::new();
        args.push(String::from_str("-c"));
        args.push(command.shell_line.clone());
        let process = Invocation { program: config.shell.clone(), args };
        assert(process@ =~= argv_spec(command@, *config));
        process
    } else {
        let mut args: Vec<String> = Vec::new();
        let mut i: usize = 1;
        while i < config.terminal.len()
            invariant
                1 <= i <= config.terminal.len(),
                args.len() == i - 1,
                forall|k: int| 0 <= k < args.len() ==> args[k]@ == config.terminal[k + 1]@,
            decreases config.terminal.len() - i,
        {
            args.push(config.terminal[i].clone());
            i += 1;
        }
        let mut j: usize = 0;
        while j < tail.len()
            invariant
                j <= tail.len(),
                config.terminal.len() >= 1,
                args.len() == config.terminal.len() - 1 + j,
                forall|k: int|
                    0 <= k < config.terminal.len() - 1 ==> args[k]@ == config.terminal[k + 1]@,
                forall|k: int|
                    config.terminal.len() - 1 <= k < args.len() ==> args[k]@ == tail[k - (
                    config.terminal.len() - 1)]@,
            decreases tail.len() - j,
        {
            args.push(tail[j].clone());
            j += 1;
        }
        let process = Invocation { program: config.terminal[0].clone(), args };
        assert(process@ =~= argv_spec(command@, *config)) by {
            assert(words(tail@).len() == 3);
            assert forall|k: int| 0 <= k < 3 implies words(tail@)[k] == tail[k]@ by {}
        }
        process
    }
}

/// An invocation always names a program, the shell is always told to run the
/// command line and nothing else, and the helper takes part exactly when the
/// command escalates and then leads the argument vector.
pub proof fn lemma_invocation_shape(command: CommandModel, config: Config)
    ensures
        argv_spec(command, config).len() >= 3,
        argv_spec(command, config).last() == command.line,
        argv_spec(command, config)[argv_spec(command, config).len() - 2] == "-c"@,
        argv_spec(command, config)[argv_spec(command, config).len() - 3] == config.shell@,
        command.escalate ==> argv_spec(command, config) == seq![
            config.helper@,
            config.shell@,
            "-c"@,
            command.line,
        ],
        !command.escalate ==> argv_spec(command, config).len() == config.terminal@.len() + 3,
{
    if command.escalate {
        assert(argv_spec(command, config) =~= seq![
            config.helper@,
            config.shell@,
            "-c"@,
            command.line,
        ]);
    }
}

} // verus!
