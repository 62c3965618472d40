use forge::shell::{
    choose_expected_path, extract_path_arg, extract_quickshell_binary_path, launch_command,
    parse_quickshell_command, parse_running_shells, plan_shell_restart, RunningShellInfo, ShellType,
};

fn info(kind: ShellType, path: &str, pid: u32) -> RunningShellInfo {
    RunningShellInfo { shell_type: kind, running_path: path.to_string(), pid }
}

const NOCTALIA_NEW: &str = "/nix/store/bbb-noctalia-shell/share/noctalia-shell";
const NOCTALIA_OLD: &str = "/nix/store/aaa-noctalia-shell/share/noctalia-shell";

#[test]
fn shell_names_and_commands() {
    assert_eq!(ShellType::Noctalia.name(), "Noctalia");
    assert_eq!(ShellType::Illogical.name(), "Illogical Impulse");
    assert_eq!(ShellType::Noctalia.restart_command(), ("noctalia-shell", vec![]));
    assert_eq!(
        ShellType::Illogical.restart_command(),
        ("quickshell", vec!["-c", "~/.config/quickshell/ii"])
    );
    assert_eq!(
        ShellType::Noctalia.config_symlink_path(Some("/home/u")),
        Some("/home/u/.config/quickshell/noctalia-shell".to_string())
    );
    assert_eq!(ShellType::Illogical.config_symlink_path(None), None);
}

#[test]
fn path_argument_extraction() {
    assert_eq!(extract_path_arg("quickshell -p /a/b -x", "-p"), Some("/a/b".to_string()));
    assert_eq!(extract_path_arg("quickshell -x -p", "-p"), None);
    assert_eq!(extract_path_arg("quickshell  -p   /a", "-p"), Some("/a".to_string()));
    assert_eq!(
        extract_quickshell_binary_path("/nix/store/x-quickshell/bin/quickshell -c ii"),
        Some("/nix/store/x-quickshell/bin/quickshell".to_string())
    );
    assert_eq!(extract_quickshell_binary_path("quickshell -c ii"), None);
}

#[test]
fn command_lines_are_classified() {
    let n = parse_quickshell_command(7, &format!("quickshell -p {}", NOCTALIA_NEW)).unwrap();
    assert_eq!((n.shell_type, n.running_path.as_str(), n.pid), (ShellType::Noctalia, NOCTALIA_NEW, 7));
    let i = parse_quickshell_command(8, "/nix/store/q-quickshell/bin/quickshell -c /home/u/.config/quickshell/ii").unwrap();
    assert_eq!(i.shell_type, ShellType::Illogical);
    assert_eq!(i.running_path, "/nix/store/q-quickshell/bin/quickshell");
    assert!(parse_quickshell_command(9, "quickshell -c other").is_none());
}

#[test]
fn process_listing_is_parsed() {
    let out = format!(
        "123 quickshell -p {}\nabc quickshell -p {}\n456\n789 /nix/store/q/bin/quickshell -c ~/.config/quickshell/ii\r\n",
        NOCTALIA_OLD, NOCTALIA_NEW
    );
    let shells = parse_running_shells(&out);
    assert_eq!(shells.len(), 2);
    assert_eq!(shells[0].pid, 123);
    assert_eq!(shells[0].running_path, NOCTALIA_OLD);
    assert_eq!(shells[1].pid, 789);
    assert_eq!(shells[1].shell_type, ShellType::Illogical);
    assert!(parse_running_shells("").is_empty());
}

#[test]
fn up_to_date_instances_need_nothing_twice() {
    let running = vec![info(ShellType::Noctalia, NOCTALIA_NEW, 10), info(ShellType::Noctalia, NOCTALIA_NEW, 11)];
    assert!(plan_shell_restart(&running, Some(NOCTALIA_NEW)).is_none());
    assert!(plan_shell_restart(&running, Some(NOCTALIA_NEW)).is_none());
}

#[test]
fn one_stale_instance_is_killed_without_launch() {
    let running = vec![info(ShellType::Noctalia, NOCTALIA_NEW, 10), info(ShellType::Noctalia, NOCTALIA_OLD, 11)];
    let plan = plan_shell_restart(&running, Some(NOCTALIA_NEW)).unwrap();
    assert_eq!(plan.kill, vec![11]);
    assert!(!plan.launch);
    assert_eq!(plan.notice(), "  Cleaning up 1 stale Noctalia shell process(es)...");
    assert_eq!(plan.report(), "Noctalia (cleanup)");
}

#[test]
fn all_stale_instances_are_replaced() {
    let running = vec![info(ShellType::Noctalia, NOCTALIA_OLD, 10), info(ShellType::Noctalia, NOCTALIA_OLD, 12)];
    let plan = plan_shell_restart(&running, Some(NOCTALIA_NEW)).unwrap();
    assert_eq!(plan.kill, vec![10, 12]);
    assert!(plan.launch);
    assert_eq!(plan.notice(), "  Restarting Noctalia shell (store path changed)...");
    assert_eq!(plan.report(), "Noctalia");
}

#[test]
fn illogical_paths_match_by_containment() {
    let running = vec![info(ShellType::Illogical, "/nix/store/q-quickshell/bin/quickshell", 5)];
    assert!(plan_shell_restart(&running, Some("/nix/store/q-quickshell")).is_none());
    let plan = plan_shell_restart(&running, Some("/nix/store/r-quickshell")).unwrap();
    assert_eq!(plan.kill, vec![5]);
    assert!(plan.launch);
}

#[test]
fn nothing_running_or_no_expected_path() {
    assert!(plan_shell_restart(&vec![], Some(NOCTALIA_NEW)).is_none());
    let running = vec![info(ShellType::Noctalia, NOCTALIA_OLD, 1)];
    assert!(plan_shell_restart(&running, None).is_none());
}

#[test]
fn expected_path_fallback() {
    assert_eq!(choose_expected_path(ShellType::Noctalia, Some("a".to_string()), None), Some("a".to_string()));
    assert_eq!(choose_expected_path(ShellType::Noctalia, None, Some("b".to_string())), None);
    assert_eq!(choose_expected_path(ShellType::Illogical, None, Some("b".to_string())), Some("b".to_string()));
}

#[test]
fn launch_commands() {
    let (cmd, args) = launch_command(ShellType::Illogical, true);
    assert_eq!(cmd, "hyprctl");
    assert_eq!(args, vec!["dispatch", "exec", "quickshell -c ~/.config/quickshell/ii"]);
    let (cmd, args) = launch_command(ShellType::Noctalia, true);
    assert_eq!((cmd.as_str(), args[2].as_str()), ("hyprctl", "noctalia-shell"));
    let (cmd, args) = launch_command(ShellType::Illogical, false);
    assert_eq!(cmd, "nohup");
    assert_eq!(args, vec!["quickshell", "-c", "~/.config/quickshell/ii"]);
}
