use pkg_dispatcher::action::{Action, App};
use pkg_dispatcher::bridge::{completion_message, Bridge};
use pkg_dispatcher::command::Command;
use pkg_dispatcher::config::Config;
use pkg_dispatcher::dispatcher::{dispatch, Followup, Host, Plan};
use pkg_dispatcher::environment::{app_command, assignment, assignments};
use pkg_dispatcher::launcher::{invocation, Invocation};
use pkg_dispatcher::reaper::{lock_notice, reap, removal_command};
use pkg_dispatcher::wrapper::Presence;

fn strings(words: &[&str]) -> Vec<String> {
    words.iter().map(|w| w.to_string()).collect()
}

fn config() -> Config {
    Config::with_terminal(strings(&["/usr/bin/xterm", "-e"]))
}

fn host_with(pak: bool, yay: bool, paru: bool) -> Host {
    let mut host = Host::bare();
    host.wrappers = Presence { pak, yay, paru };
    host
}

fn argv(plan: &Plan) -> Vec<String> {
    match plan {
        Plan::Spawn { process, .. } => {
            let mut all = vec![process.program.clone()];
            all.extend(process.args.iter().cloned());
            all
        }
        Plan::Nothing => panic!("a process was expected"),
    }
}

fn followup(plan: &Plan) -> Followup {
    match plan {
        Plan::Spawn { followup, .. } => *followup,
        Plan::Nothing => panic!("a process was expected"),
    }
}

#[test]
fn usual_configuration() {
    let config = config();
    assert_eq!(config.terminal, strings(&["/usr/bin/xterm", "-e"]));
    assert_eq!(config.shell, "bash");
    assert_eq!(config.helper, "/sbin/pkexec");
    assert_eq!(config.lock_path, "/var/lib/pacman/db.lck");
    assert_eq!(config.pak_path, "/sbin/pak");
    assert_eq!(config.yay_path, "/sbin/yay");
    assert_eq!(config.paru_path, "/sbin/paru");
}

#[test]
fn pak_host_updates_without_helper() {
    let plan = dispatch(Action::UpdateSystem, &host_with(true, false, false), &config());
    let words = argv(&plan);
    assert_eq!(words, strings(&["/usr/bin/xterm", "-e", "bash", "-c", "pak -Syu"]));
    assert!(!words.iter().any(|w| w == "/sbin/pkexec"));
    assert_eq!(followup(&plan), Followup::Discard);
}

#[test]
fn pacman_host_removes_orphans_through_helper_once() {
    let plan = dispatch(Action::RemoveOrphans, &host_with(false, false, false), &config());
    let words = argv(&plan);
    assert_eq!(
        words,
        strings(&["/sbin/pkexec", "bash", "-c", "pacman -Rns $(pacman -Qtdq)"])
    );
    assert_eq!(words.iter().filter(|w| *w == "/sbin/pkexec").count(), 1);
    assert_eq!(followup(&plan), Followup::Discard);
}

#[test]
fn paru_host_clears_cache_without_helper() {
    let plan = dispatch(Action::ClearCache, &host_with(false, false, true), &config());
    assert_eq!(argv(&plan), strings(&["/usr/bin/xterm", "-e", "bash", "-c", "paru -Sc"]));
}

#[test]
fn paru_host_reinstalls_through_pacman() {
    let plan = dispatch(Action::ReinstallAll, &host_with(false, false, true), &config());
    assert_eq!(
        argv(&plan),
        strings(&["/sbin/pkexec", "bash", "-c", "pacman -S $(pacman -Qnq)"])
    );
}

#[test]
fn existing_lock_is_removed_through_helper() {
    let mut host = Host::bare();
    host.lock_present = true;
    let plan = dispatch(Action::RemoveDbLock, &host, &config());
    assert_eq!(
        argv(&plan),
        strings(&["/sbin/pkexec", "bash", "-c", "rm /var/lib/pacman/db.lck"])
    );
    assert_eq!(followup(&plan), Followup::RecheckLock);
}

#[test]
fn missing_lock_leads_to_nothing() {
    let plan = dispatch(Action::RemoveDbLock, &Host::bare(), &config());
    assert_eq!(plan, Plan::Nothing);
    assert_eq!(reap(false, &config()), None);
}

#[test]
fn lock_notice_only_when_lock_is_gone() {
    assert_eq!(lock_notice(false), Some("Pacman db lock was removed!".to_string()));
    assert_eq!(lock_notice(true), None);
}

#[test]
fn removal_command_names_the_configured_lock() {
    let mut config = config();
    config.lock_path = "/tmp/db.lck".to_string();
    let command = removal_command(&config);
    assert_eq!(command.shell_line, "rm /tmp/db.lck");
    assert!(command.escalate);
}

#[test]
fn app_without_executable_is_dropped() {
    let host = Host::bare();
    let plan = dispatch(Action::LaunchApp(App::PackageInstaller), &host, &config());
    assert_eq!(plan, Plan::Nothing);
}

#[test]
fn installer_starts_through_helper_and_reports_exit() {
    let mut host = Host::bare();
    host.executable = Some("/sbin/vaamos-pi-bin\n".to_string());
    host.variables = vec![
        ("HOME".to_string(), "/home/u".to_string()),
        ("PATH".to_string(), "/opt/bin".to_string()),
    ];
    let plan = dispatch(Action::LaunchApp(App::PackageInstaller), &host, &config());
    assert_eq!(
        argv(&plan),
        strings(&[
            "/sbin/pkexec",
            "bash",
            "-c",
            "HOME=\"/home/u\" PATH=/sbin:/bin:/usr/local/sbin:/usr/local/bin:/usr/bin:/usr/sbin  /sbin/vaamos-pi-bin",
        ])
    );
    assert_eq!(followup(&plan), Followup::ReportExit);
}

#[test]
fn kernel_manager_starts_in_terminal() {
    let mut host = Host::bare();
    host.executable = Some("/usr/bin/vaamos-kernel-manager\n".to_string());
    let plan = dispatch(Action::LaunchApp(App::KernelManager), &host, &config());
    assert_eq!(
        argv(&plan),
        strings(&["/usr/bin/xterm", "-e", "bash", "-c", " /usr/bin/vaamos-kernel-manager"])
    );
    assert_eq!(followup(&plan), Followup::ReportExit);
}

#[test]
fn assignment_quotes_the_value() {
    assert_eq!(assignment("LANG", "en_US.UTF-8"), "LANG=\"en_US.UTF-8\" ");
    assert_eq!(assignment("EMPTY", ""), "EMPTY=\"\" ");
}

#[test]
fn assignment_forces_the_search_path() {
    assert_eq!(
        assignment("PATH", "/home/u/bin"),
        "PATH=/sbin:/bin:/usr/local/sbin:/usr/local/bin:/usr/bin:/usr/sbin "
    );
}

#[test]
fn assignments_keep_the_order() {
    let variables = vec![
        ("A".to_string(), "1".to_string()),
        ("B".to_string(), "two words".to_string()),
    ];
    assert_eq!(assignments(&variables), "A=\"1\" B=\"two words\" ");
    assert_eq!(assignments(&Vec::new()), "");
}

#[test]
fn app_command_drops_the_last_character_of_the_lookup() {
    let command = app_command(App::KernelManager, "/usr/bin/tool\n", &Vec::new());
    assert_eq!(command.shell_line, " /usr/bin/tool");
    assert!(!command.escalate);
    let bare = app_command(App::PackageInstaller, "", &Vec::new());
    assert_eq!(bare.shell_line, " ");
    assert!(bare.escalate);
}

#[test]
fn invocation_under_helper() {
    let command = Command::new("pacman -Syu".to_string(), true);
    let process = invocation(&command, &config());
    assert_eq!(
        process,
        Invocation {
            program: "/sbin/pkexec".to_string(),
            args: strings(&["bash", "-c", "pacman -Syu"]),
        }
    );
}

#[test]
fn invocation_in_terminal() {
    let command = Command::new("yay -Sc".to_string(), false);
    let process = invocation(&command, &config());
    assert_eq!(
        process,
        Invocation {
            program: "/usr/bin/xterm".to_string(),
            args: strings(&["-e", "bash", "-c", "yay -Sc"]),
        }
    );
}

#[test]
fn invocation_without_terminal_runs_the_shell() {
    let command = Command::new("yay -Sc".to_string(), false);
    let process = invocation(&command, &Config::with_terminal(Vec::new()));
    assert_eq!(
        process,
        Invocation { program: "bash".to_string(), args: strings(&["-c", "yay -Sc"]) }
    );
}

#[test]
fn invocation_with_a_single_terminal_word() {
    let command = Command::new("pak -Syu".to_string(), false);
    let process = invocation(&command, &Config::with_terminal(strings(&["term"])));
    assert_eq!(
        process,
        Invocation { program: "term".to_string(), args: strings(&["bash", "-c", "pak -Syu"]) }
    );
}

#[test]
fn completion_messages() {
    assert_eq!(completion_message(true), "Exit status successfully? = true");
    assert_eq!(completion_message(false), "Exit status successfully? = false");
}

#[test]
fn bridge_hands_over_one_message() {
    let mut bridge = Bridge::new();
    assert!(bridge.is_open());
    assert_eq!(bridge.accept("first".to_string()), Some("first".to_string()));
    assert_eq!(bridge, Bridge::Delivered);
    assert_eq!(bridge.accept("second".to_string()), None);
    assert_eq!(bridge, Bridge::Delivered);
    bridge.close();
    assert_eq!(bridge, Bridge::Closed);
    assert_eq!(bridge.accept("third".to_string()), None);
    assert!(!bridge.is_open());
}

#[test]
fn closed_bridge_hands_over_nothing() {
    let mut bridge = Bridge::new();
    bridge.close();
    assert_eq!(bridge.accept("late".to_string()), None);
    assert_eq!(bridge, Bridge::Closed);
}
