//! The lock reaper: removal of a stale lock on the package database.

use vstd::prelude::*;
use vstd::string::*;
use crate::command::{Command, CommandModel};
use crate::config::Config;
use crate::launcher::{argv_spec, invocation, Invocation};

verus! {

/// The shell line that removes the lock file.
pub open spec fn removal_line(config: Config) -> Seq<char> {
    "rm "@ + config.lock_path@
}

/// The command that removes the lock file. It always escalates.
pub open spec fn removal_spec(config: Config) -> CommandModel {
    CommandModel { line: removal_line(config), escalate: true }
}

/// What the user is told once the lock is gone.
pub open spec fn notice_text() -> Seq<char> {
    "Pacman db lock was removed!"@
}

/// The process that removes the lock, where there is a lock to remove.
pub open spec fn reap_spec(lock_present: bool, config: Config) -> Option<Seq<Seq<char>>> {
    if lock_present {
        Some(argv_spec(removal_spec(config), config))
    } else {
        None
    }
}

/// Builds the command that removes the lock file.
pub fn removal_command(config: &Config) -> (command: Command)
    ensures
        command@ == removal_spec(*config),
{
    let mut line = String::from_str("rm ");
    line.append(config.lock_path.as_str());
    Command::new(line, true)
}

/// Decides what to do about the lock. Without a lock file nothing is done;
/// with one, the escalation helper is to run the shell on the removal line.
pub fn reap(lock_present: bool, config: &Config) -> (process: Option<Invocation>)
    ensures
        match process {
            Some(p) => reap_spec(lock_present, *config) == Some(p@),
            None => reap_spec(lock_present, *config) is None,
        },
        process is Some <==> lock_present,
{
    if lock_present {
        let command = removal_command(config);
        Some(invocation(&command, config))
    } else {
        None
    }
}

/// Decides, after the removal has run, whether the user is notified: only if
/// the lock file is gone. A lock that is still there is passed over in
/// silence.
pub fn lock_notice(still_present: bool) -> (notice: Option<String>)
    ensures
        notice is Some <==> !still_present,
        notice is Some ==> notice->Some_0@ == notice_text(),
{
    if still_present {
        None
    } else {
        Some(String::from_str("Pacman db lock was removed!"))
    }
}

/// With the usual paths the lock is removed by the helper `/sbin/pkexec`
/// running `bash -c "rm /var/lib/pacman/db.lck"`, and by nothing else.
pub proof fn lemma_usual_removal(config: Config)
    requires
        config.has_usual_paths(),
    ensures
        reap_spec(true, config) == Some(
            seq!["/sbin/pkexec"@, "bash"@, "-c"@, "rm /var/lib/pacman/db.lck"@],
        ),
{
    reveal_strlit("rm ");
    reveal_strlit("/var/lib/pacman/db.lck");
    reveal_strlit("rm /var/lib/pacman/db.lck");
    assert("rm "@ + "/var/lib/pacman/db.lck"@ =~= "rm /var/lib/pacman/db.lck"@);
    assert(argv_spec(removal_spec(config), config) =~= seq![
        "/sbin/pkexec"@,
        "bash"@,
        "-c"@,
        "rm /var/lib/pacman/db.lck"@,
    ]);
}

} // verus!
