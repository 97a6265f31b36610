use pkg_dispatcher::action::{same_text, Action, App, Query};
use pkg_dispatcher::menu::{
    autostart_step, expand_home, menu_action, offered_apps, page_name, AutostartStep, MenuAction,
};

fn all_actions() -> Vec<Action> {
    vec![
        Action::UpdateSystem,
        Action::ReinstallAll,
        Action::RemoveOrphans,
        Action::ClearCache,
        Action::RemoveDbLock,
        Action::LaunchApp(App::PackageInstaller),
        Action::LaunchApp(App::KernelManager),
    ]
}

#[test]
fn labels_resolve_to_their_actions() {
    assert_eq!(Action::from_label("System update"), Some(Action::UpdateSystem));
    assert_eq!(Action::from_label("Reinstall all packages"), Some(Action::ReinstallAll));
    assert_eq!(Action::from_label("Remove orphans"), Some(Action::RemoveOrphans));
    assert_eq!(Action::from_label("Clear package cache"), Some(Action::ClearCache));
    assert_eq!(Action::from_label("Remove db lock"), Some(Action::RemoveDbLock));
    assert_eq!(
        Action::from_label("VaamOS PackageInstaller"),
        Some(Action::LaunchApp(App::PackageInstaller))
    );
    assert_eq!(
        Action::from_label("VaamOS Kernel Manager"),
        Some(Action::LaunchApp(App::KernelManager))
    );
}

#[test]
fn unknown_labels_resolve_to_nothing() {
    assert_eq!(Action::from_label(""), None);
    assert_eq!(Action::from_label("system update"), None);
    assert_eq!(Action::from_label("System update "), None);
    assert_eq!(Action::from_label("vaamos-pi-bin"), None);
}

#[test]
fn every_action_is_found_from_its_label() {
    for action in all_actions() {
        assert_eq!(Action::from_label(&action.label()), Some(action));
    }
}

#[test]
fn app_binaries_and_privilege() {
    assert_eq!(App::PackageInstaller.binary(), "vaamos-pi-bin");
    assert!(App::PackageInstaller.needs_escalation());
    assert_eq!(App::KernelManager.binary(), "vaamos-kernel-manager");
    assert!(!App::KernelManager.needs_escalation());
}

#[test]
fn queries_name_what_each_action_needs() {
    assert_eq!(Action::UpdateSystem.query(), Query::Wrappers);
    assert_eq!(Action::ReinstallAll.query(), Query::Wrappers);
    assert_eq!(Action::RemoveOrphans.query(), Query::Wrappers);
    assert_eq!(Action::ClearCache.query(), Query::Wrappers);
    assert_eq!(Action::RemoveDbLock.query(), Query::LockFile);
    assert_eq!(
        Action::LaunchApp(App::KernelManager).query(),
        Query::Executable(App::KernelManager)
    );
}

#[test]
fn same_text_compares_characters() {
    assert!(same_text("", ""));
    assert!(same_text("PATH", "PATH"));
    assert!(!same_text("PATH", "PATH "));
    assert!(!same_text("path", "PATH"));
}

#[test]
fn page_names_end_in_page() {
    assert_eq!(page_name("home"), "homepage");
    assert_eq!(page_name("tweaksBrowser"), "tweaksBrowserpage");
    assert_eq!(page_name(""), "page");
}

#[test]
fn settings_widgets_route_by_name() {
    assert_eq!(menu_action("install"), MenuAction::Nothing);
    assert_eq!(menu_action("autostart"), MenuAction::ToggleAutostart);
    assert_eq!(menu_action("about"), MenuAction::ShowAbout);
    assert_eq!(menu_action(""), MenuAction::ShowAbout);
}

#[test]
fn autostart_entry_follows_the_switch() {
    assert_eq!(autostart_step(true, false), AutostartStep::Link);
    assert_eq!(autostart_step(false, true), AutostartStep::Unlink);
    assert_eq!(autostart_step(true, true), AutostartStep::Keep);
    assert_eq!(autostart_step(false, false), AutostartStep::Keep);
}

#[test]
fn installer_button_only_where_installed() {
    assert_eq!(offered_apps(true), vec![App::PackageInstaller]);
    assert_eq!(offered_apps(false), Vec::<App>::new());
}

#[test]
fn leading_tilde_becomes_the_home_directory() {
    assert_eq!(
        expand_home("~/.config/autostart/menu.desktop", "/home/u"),
        "/home/u/.config/autostart/menu.desktop"
    );
    assert_eq!(expand_home("/etc/xdg/menu.desktop", "/home/u"), "/etc/xdg/menu.desktop");
    assert_eq!(expand_home("", "/home/u"), "");
    assert_eq!(expand_home("~", "/home/u"), "/home/u");
    assert_eq!(expand_home("a~b", "/home/u"), "a~b");
    assert_eq!(expand_home("~/ü~", "/home/u"), "/home/u/ü~");
}
