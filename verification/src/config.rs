//! The paths and programs that the dispatcher works with.

use vstd::prelude::*;
use vstd::string::*;

verus! {

/// Where the programs and files live that the dispatcher refers to.
#[derive(Debug, PartialEq, Eq)]
pub struct Config {
    /// The words of the terminal-emulator command: the program, followed by
    /// whatever it needs in front of the command it is to run. Empty when the
    /// shell is to be started without a terminal.
    pub terminal: Vec<String>,
    /// The shell that interprets a command line.
    pub shell: String,
    /// The graphical privilege-escalation helper.
    pub helper: String,
    /// The lock file of the package database.
    pub lock_path: String,
    /// Where the pak front-end is installed, if it is.
    pub pak_path: String,
    /// Where the yay front-end is installed, if it is.
    pub yay_path: String,
    /// Where the paru front-end is installed, if it is.
    pub paru_path: String,
}

/// The character sequences of a sequence of strings.
pub open spec fn words(strings: Seq<String>) -> Seq<Seq<char>> {
    Seq::new(strings.len(), |i: int| strings[i]@)
}

impl Config {
    /// Whether every path but the terminal has its usual value.
    pub open spec fn has_usual_paths(&self) -> bool {
        &&& self.shell@ == "bash"@
        &&& self.helper@ == "/sbin/pkexec"@
        &&& self.lock_path@ == "/var/lib/pacman/db.lck"@
        &&& self.pak_path@ == "/sbin/pak"@
        &&& self.yay_path@ == "/sbin/yay"@
        &&& self.paru_path@ == "/sbin/paru"@
    }

    /// The usual configuration around a given terminal command.
    pub fn with_terminal(terminal: Vec<String>) -> (config: Config)
        ensures
            config.terminal == terminal,
            config.has_usual_paths(),
    {
        Config {
            terminal,
            shell: String::from_str("bash"),
            helper: String::from_str("/sbin/pkexec"),
            lock_path: String::from_str("/var/lib/pacman/db.lck"),
            pak_path: String::from_str("/sbin/pak"),
            yay_path: String::from_str("/sbin/yay"),
            paru_path: String::from_str("/sbin/paru"),
        }
    }
}

} // verus!
