//! Maintenance actions and the applications the menu can launch.

use vstd::prelude::*;
use vstd::string::*;

verus! {

/// An application that the menu can start.
#[derive(Clone, Copy, Debug, PartialEq, Eq, Structural)]
pub enum App {
    PackageInstaller,
    KernelManager,
}

/// What the user asked for.
#[derive(Clone, Copy, Debug, PartialEq, Eq, Structural)]
pub enum Action {
    UpdateSystem,
    ReinstallAll,
    RemoveOrphans,
    ClearCache,
    RemoveDbLock,
    LaunchApp(App),
}

/// What has to be known about the host before an action can be dispatched.
#[derive(Clone, Copy, Debug, PartialEq, Eq, Structural)]
pub enum Query {
    /// Which front-end executables exist.
    Wrappers,
    /// Whether the database lock file exists.
    LockFile,
    /// Where the executable of the application is, and the user's environment.
    Executable(App),
}

/// The name of the executable that starts `app`.
pub open spec fn binary_spec(app: App) -> Seq<char> {
    match app {
        App::PackageInstaller => "vaamos-pi-bin"@,
        App::KernelManager => "vaamos-kernel-manager"@,
    }
}

/// Whether `app` has to run with raised privilege.
pub open spec fn app_escalates(app: App) -> bool {
    app == App::PackageInstaller
}

/// The label of the button that triggers `action`.
pub open spec fn label_spec(action: Action) -> Seq<char> {
    match action {
        Action::UpdateSystem => "System update"@,
        Action::ReinstallAll => "Reinstall all packages"@,
        Action::RemoveOrphans => "Remove orphans"@,
        Action::ClearCache => "Clear package cache"@,
        Action::RemoveDbLock => "Remove db lock"@,
        Action::LaunchApp(App::PackageInstaller) => "VaamOS PackageInstaller"@,
        Action::LaunchApp(App::KernelManager) => "VaamOS Kernel Manager"@,
    }
}

/// The action that a button label stands for, if any.
pub open spec fn action_for_label(label: Seq<char>) -> Option<Action> {
    if label == label_spec(Action::UpdateSystem) {
        Some(Action::UpdateSystem)
    } else if label == label_spec(Action::ReinstallAll) {
        Some(Action::ReinstallAll)
    } else if label == label_spec(Action::RemoveOrphans) {
        Some(Action::RemoveOrphans)
    } else if label == label_spec(Action::ClearCache) {
        Some(Action::ClearCache)
    } else if label == label_spec(Action::RemoveDbLock) {
        Some(Action::RemoveDbLock)
    } else if label == label_spec(Action::LaunchApp(App::PackageInstaller)) {
        Some(Action::LaunchApp(App::PackageInstaller))
    } else if label == label_spec(Action::LaunchApp(App::KernelManager)) {
        Some(Action::LaunchApp(App::KernelManager))
    } else {
        None
    }
}

/// What dispatching `action` needs to know about the host.
pub open spec fn query_spec(action: Action) -> Query {
    match action {
        Action::RemoveDbLock => Query::LockFile,
        Action::LaunchApp(app) => Query::Executable(app),
        _ => Query::Wrappers,
    }
}

/// Whether two strings hold the same characters.
pub fn same_text(a: &str, b: &str) -> (same: bool)
    ensures
        same == (a@ == b@),
{
    let left = a.to_owned();
    let right = b.to_owned();
    left == right
}

impl App {
    /// The name of the executable that starts this application.
    pub fn binary(self) -> (name: String)
        ensures
            name@ == binary_spec(self),
    {
        match self {
            App::PackageInstaller => String::from_str("vaamos-pi-bin"),
            App::KernelManager => String::from_str("vaamos-kernel-manager"),
        }
    }

    /// Whether this application has to run with raised privilege.
    pub fn needs_escalation(self) -> (escalate: bool)
        ensures
            escalate == app_escalates(self),
    {
        match self {
            App::PackageInstaller => true,
            App::KernelManager => false,
        }
    }
}

impl Action {
    /// The label of the button that triggers this action.
    pub fn label(self) -> (text: String)
        ensures
            text@ == label_spec(self),
    {
        match self {
            Action::UpdateSystem => String::from_str("System update"),
            Action::ReinstallAll => String::from_str("Reinstall all packages"),
            Action::RemoveOrphans => String::from_str("Remove orphans"),
            Action::ClearCache => String::from_str("Clear package cache"),
            Action::RemoveDbLock => String::from_str("Remove db lock"),
            Action::LaunchApp(App::PackageInstaller) => String::from_str("VaamOS PackageInstaller"),
            Action::LaunchApp(App::KernelManager) => String::from_str("VaamOS Kernel Manager"),
        }
    }

    /// Resolves a button label to its action. A label that belongs to no
    /// button resolves to nothing, so that the event is dropped.
    pub fn from_label(label: &str) -> (action: Option<Action>)
        ensures
            action == action_for_label(label@),
    {
        if same_text(label, "System update") {
            Some(Action::UpdateSystem)
        } else if same_text(label, "Reinstall all packages") {
            Some(Action::ReinstallAll)
        } else if same_text(label, "Remove orphans") {
            Some(Action::RemoveOrphans)
        } else if same_text(label, "Clear package cache") {
            Some(Action::ClearCache)
        } else if same_text(label, "Remove db lock") {
            Some(Action::RemoveDbLock)
        } else if same_text(label, "VaamOS PackageInstaller") {
            Some(Action::LaunchApp(App::PackageInstaller))
        } else if same_text(label, "VaamOS Kernel Manager") {
            Some(Action::LaunchApp(App::KernelManager))
        } else {
            None
        }
    }

    /// What has to be looked up on the host before this action is dispatched.
    pub fn query(self) -> (query: Query)
        ensures
            query == query_spec(self),
    {
        match self {
            Action::RemoveDbLock => Query::LockFile,
            Action::LaunchApp(app) => Query::Executable(app),
            _ => Query::Wrappers,
        }
    }
}

/// The first characters of the seven button labels, in the order in which
/// `label_spec` lists them, with enough of each label to tell it from the rest.
proof fn lemma_label_heads()
    ensures
        label_spec(Action::UpdateSystem).len() == 13,
        label_spec(Action::ReinstallAll).len() == 22,
        label_spec(Action::RemoveOrphans).len() == 14,
        label_spec(Action::RemoveOrphans)[7] == 'o',
        label_spec(Action::ClearCache).len() == 19,
        label_spec(Action::RemoveDbLock).len() == 14,
        label_spec(Action::RemoveDbLock)[7] == 'd',
        label_spec(Action::LaunchApp(App::PackageInstaller)).len() == 23,
        label_spec(Action::LaunchApp(App::KernelManager)).len() == 21,
{
    reveal_strlit("System update");
    reveal_strlit("Reinstall all packages");
    reveal_strlit("Remove orphans");
    reveal_strlit("Clear package cache");
    reveal_strlit("Remove db lock");
    reveal_strlit("VaamOS PackageInstaller");
    reveal_strlit("VaamOS Kernel Manager");
}

/// Every action is found again from its own label: no two buttons share one.
pub proof fn lemma_label_round_trip(action: Action)
    ensures
        action_for_label(label_spec(action)) == Some(action),
{
    lemma_label_heads();
}

} // verus!
