//! The command line that starts an application with the user's environment.

use vstd::prelude::*;
use vstd::string::*;
use crate::action::{app_escalates, same_text, App};
use crate::command::{Command, CommandModel};

verus! {

/// What stands for the variable `PATH` in the command line of an application:
/// a fixed search path that begins with the system directories.
pub open spec fn forced_path() -> Seq<char> {
    "PATH=/sbin:/bin:/usr/local/sbin:/usr/local/bin:/usr/bin:/usr/sbin "@
}

/// One variable as the shell reads it in front of a command: the name, an
/// equals sign, the value in double quotes and a blank. `PATH` is replaced.
pub open spec fn assignment_spec(name: Seq<char>, value: Seq<char>) -> Seq<char> {
    if name == "PATH"@ {
        forced_path()
    } else {
        name + "=\""@ + value + "\" "@
    }
}

/// The assignments of all variables, in their order.
pub open spec fn assignments_spec(variables: Seq<(String, String)>) -> Seq<char>
    decreases variables.len(),
{
    if variables.len() == 0 {
        Seq::empty()
    } else {
        assignments_spec(variables.drop_last()) + assignment_spec(
            variables.last().0@,
            variables.last().1@,
        )
    }
}

/// A line of output without its last character, the line break.
pub open spec fn without_last(text: Seq<char>) -> Seq<char> {
    if text.len() == 0 {
        text
    } else {
        text.drop_last()
    }
}

/// The shell line that starts the executable which a lookup printed as
/// `found`, under the given variables.
pub open spec fn app_line_spec(variables: Seq<(String, String)>, found: Seq<char>) -> Seq<char> {
    assignments_spec(variables) + " "@ + without_last(found)
}

/// `String::pop` of the standard library: takes the last character off the
/// string and returns it, or returns nothing and leaves an empty string as it
/// is.
#[verifier::external_body]
fn pop_last(text: &mut String) -> (last: Option<char>)
    ensures
        old(text)@.len() == 0 ==> last is None && final(text)@ == old(text)@,
        old(text)@.len() > 0 ==> last == Some(old(text)@.last()) && final(text)@ == old(
            text,
        )@.drop_last(),
{
    text.pop()
}

/// Writes one variable as an assignment.
pub fn assignment(name: &str, value: &str) -> (text: String)
    ensures
        text@ == assignment_spec(name@, value@),
{
    if same_text(name, "PATH") {
        String::from_str("PATH=/sbin:/bin:/usr/local/sbin:/usr/local/bin:/usr/bin:/usr/sbin ")
    } else {
        let mut text = String::from_str(name);
        text.append("=\"");
        text.append(value);
        text.append("\" ");
        text
    }
}

/// Writes all variables as assignments, one after the other.
pub fn assignments(variables: &Vec<(String, String)>) -> (text: String)
    ensures
        text@ == assignments_spec(variables@),
{
    let mut text = String::new();
    let mut i: usize = 0;
    assert(variables@.subrange(0, 0) =~= Seq::empty());
    while i < variables.len()
        invariant
            i <= variables.len(),
            text@ == assignments_spec(variables@.subrange(0, i as int)),
        decreases variables.len() - i,
    {
        let one = assignment(variables[i].0.as_str(), variables[i].1.as_str());
        text.append(one.as_str());
        proof {
            let upto = variables@.subrange(0, i + 1);
            assert(upto.drop_last() =~= variables@.subrange(0, i as int));
            assert(upto.last() == variables@[i as int]);
        }
        i += 1;
    }
    assert(variables@.subrange(0, variables.len() as int) =~= variables@);
    text
}

/// Builds the command that starts `app`. `found` is what the lookup of the
/// executable printed, its path followed by a line break; `variables` is the
/// user's environment. The command escalates where the application asks for
/// it.
pub fn app_command(app: App, found: &str, variables: &Vec<(String, String)>) -> (command: Command)
    ensures
        command@ == (CommandModel {
            line: app_line_spec(variables@, found@),
            escalate: app_escalates(app),
        }),
{
    let mut path = String::from_str(found);
    let _ = pop_last(&mut path);
    let mut line = assignments(variables);
    line.append(" ");
    line.append(path.as_str());
    Command::new(line, app.needs_escalation())
}

/// The assignments of a list are those of its front followed by those of its
/// back: the command line keeps the order of the environment.
pub proof fn lemma_assignments_concat(front: Seq<(String, String)>, back: Seq<(String, String)>)
    ensures
        assignments_spec(front + back) == assignments_spec(front) + assignments_spec(back),
    decreases back.len(),
{
    if back.len() == 0 {
        assert(front + back =~= front);
        assert(assignments_spec(front) + Seq::<char>::empty() =~= assignments_spec(front));
    } else {
        assert((front + back).drop_last() =~= front + back.drop_last());
        assert((front + back).last() == back.last());
        lemma_assignments_concat(front, back.drop_last());
        assert(assignments_spec(front + back) =~= assignments_spec(front) + assignments_spec(
            back,
        ));
    }
}

} // verus!
