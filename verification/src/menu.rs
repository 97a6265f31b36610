//! The small decisions of the menu around the dispatcher: which page a button
//! opens, what a settings widget does, and how the autostart entry follows
//! its switch.

use vstd::prelude::*;
use vstd::string::*;
use crate::action::{same_text, App};

verus! {

/// What a click on a widget of the settings row leads to.
#[derive(Clone, Copy, Debug, PartialEq, Eq, Structural)]
pub enum MenuAction {
    Nothing,
    ToggleAutostart,
    ShowAbout,
}

/// What has to happen to the autostart entry.
#[derive(Clone, Copy, Debug, PartialEq, Eq, Structural)]
pub enum AutostartStep {
    /// Create the entry.
    Link,
    /// Remove the entry.
    Unlink,
    /// Leave things as they are.
    Keep,
}

/// The name of the page that the button called `name` opens.
pub open spec fn page_name_spec(name: Seq<char>) -> Seq<char> {
    name + "page"@
}

/// What the widget called `widget` does when it is clicked.
pub open spec fn menu_action_spec(widget: Seq<char>) -> MenuAction {
    if widget == "install"@ {
        MenuAction::Nothing
    } else if widget == "autostart"@ {
        MenuAction::ToggleAutostart
    } else {
        MenuAction::ShowAbout
    }
}

/// The step that brings the autostart entry in line with the switch.
pub open spec fn autostart_spec(wanted: bool, present: bool) -> AutostartStep {
    if wanted && !present {
        AutostartStep::Link
    } else if !wanted && present {
        AutostartStep::Unlink
    } else {
        AutostartStep::Keep
    }
}

/// Whether the autostart entry exists once `step` was carried out.
pub open spec fn present_after(step: AutostartStep, present: bool) -> bool {
    match step {
        AutostartStep::Link => true,
        AutostartStep::Unlink => false,
        AutostartStep::Keep => present,
    }
}

/// The applications that get a button: the package installer where it is
/// installed.
pub open spec fn offered_spec(installer_present: bool) -> Seq<App> {
    if installer_present {
        seq![App::PackageInstaller]
    } else {
        Seq::empty()
    }
}

/// A path in which a leading `~` stands for the home directory, written out.
pub open spec fn expand_home_spec(path: Seq<char>, home: Seq<char>) -> Seq<char> {
    if path.len() > 0 && path[0] == '~' {
        home + path.skip(1)
    } else {
        path
    }
}

/// Writes out a path that begins with `~`: the home directory takes the place
/// of that first character. Any other path is returned as it is.
pub fn expand_home(path: &str, home: &str) -> (full: String)
    ensures
        full@ == expand_home_spec(path@, home@),
{
    let length = path.unicode_len();
    if length > 0 && path.get_char(0) == '~' {
        let rest = path.substring_char(1, length);
        assert(path@.subrange(1, length as int) =~= path@.skip(1));
        String::from_str(home).concat(rest)
    } else {
        String::from_str(path)
    }
}

/// Names the page that a button opens: the button's name followed by `page`.
pub fn page_name(name: &str) -> (page: String)
    ensures
        page@ == page_name_spec(name@),
{
    let mut page = String::from_str(name);
    page.append("page");
    page
}

/// Decides what a click on a widget of the settings row does.
pub fn menu_action(widget: &str) -> (action: MenuAction)
    ensures
        action == menu_action_spec(widget@),
{
    if same_text(widget, "install") {
        MenuAction::Nothing
    } else if same_text(widget, "autostart") {
        MenuAction::ToggleAutostart
    } else {
        MenuAction::ShowAbout
    }
}

/// Decides how the autostart entry follows its switch. After the step the
/// entry exists exactly when it is wanted.
pub fn autostart_step(wanted: bool, present: bool) -> (step: AutostartStep)
    ensures
        step == autostart_spec(wanted, present),
        present_after(step, present) == wanted,
{
    if wanted && !present {
        AutostartStep::Link
    } else if !wanted && present {
        AutostartStep::Unlink
    } else {
        AutostartStep::Keep
    }
}

/// Lists the applications that get a button. An empty list means that the
/// section of applications is left out.
pub fn offered_apps(installer_present: bool) -> (apps: Vec<App>)
    ensures
        apps@ == offered_spec(installer_present),
{
    let mut apps: Vec<App> = Vec::new();
    if installer_present {
        apps.push(App::PackageInstaller);
    }
    assert(apps@ =~= offered_spec(installer_present));
    apps
}

} // verus!
