use forge::git::{branch_from_remote_head, default_branch, parse_local_changes, stash_restore_lines};
use forge::messages::{command_outcome, CommandMessage, CommandResult};
use forge::summary::{output_summary, CommitInfo, FlakeChange, UpdateSummary};
use forge::update::{detect_reboot_reasons, Tool, UpdateAction, UpdateEvent, UpdateRun};

fn captured(ok: bool, stdout: &str) -> UpdateEvent {
    UpdateEvent::Captured { ok, stdout: stdout.to_string(), stderr: String::new() }
}

fn feed(run: &mut UpdateRun, log: &mut Vec<CommandMessage>, e: UpdateEvent) {
    log.extend(run.advance(e));
}

fn has_done(log: &[CommandMessage], success: bool) -> bool {
    log.iter().any(|m| matches!(m, CommandMessage::Done { success: s } if *s == success))
}

fn tools_and_profiles(run: &mut UpdateRun, log: &mut Vec<CommandMessage>) {
    assert_eq!(run.next_action(), UpdateAction::UpdateTool(Tool::Agent));
    feed(run, log, UpdateEvent::ToolChecked { installed: false, before: None, update_ok: false, after: None });
    assert_eq!(run.next_action(), UpdateAction::UpdateTool(Tool::Codex));
    feed(run, log, UpdateEvent::ToolChecked {
        installed: true,
        before: Some("0.1.0".to_string()),
        update_ok: true,
        after: Some("0.2.0".to_string()),
    });
    assert_eq!(run.next_action(), UpdateAction::CheckProfiles);
    feed(run, log, UpdateEvent::Profiles { tool_present: false, config_present: false, status: None });
    assert_eq!(run.next_action(), UpdateAction::Finished);
}

#[test]
fn cancellation_takes_precedence() {
    assert_eq!(command_outcome(true, Some(true)), CommandResult::Cancelled);
    assert_eq!(command_outcome(true, None), CommandResult::Cancelled);
    assert_eq!(command_outcome(false, Some(true)), CommandResult::Completed(true));
    assert_eq!(command_outcome(false, Some(false)), CommandResult::Completed(false));
    assert_eq!(command_outcome(false, None), CommandResult::Completed(false));
}

#[test]
fn unchanged_lock_skips_rebuild() {
    let (mut run, mut log) = UpdateRun::new();
    feed(&mut run, &mut log, UpdateEvent::Flag(false));
    assert_eq!(run.next_action(), UpdateAction::HashLockBefore);
    feed(&mut run, &mut log, UpdateEvent::Hash(Some("abc".to_string())));
    feed(&mut run, &mut log, UpdateEvent::Finished(CommandResult::Completed(true)));
    assert_eq!(run.next_action(), UpdateAction::HashLockAfter);
    feed(&mut run, &mut log, UpdateEvent::Hash(Some("abc".to_string())));
    assert!(log.iter().any(|m| matches!(m, CommandMessage::StepSkipped { step } if step == "Rebuild")));
    assert!(run.summary().rebuild_skipped);
    assert_eq!(run.next_action(), UpdateAction::ComparePackages);
    feed(&mut run, &mut log, UpdateEvent::Packages { changes: vec![], closure: None });
    tools_and_profiles(&mut run, &mut log);
    assert!(has_done(&log, true));
    assert!(!has_done(&log, false));
}

#[test]
fn failed_rebuild_continues_and_fails_run() {
    let (mut run, mut log) = UpdateRun::new();
    feed(&mut run, &mut log, UpdateEvent::Flag(false));
    feed(&mut run, &mut log, UpdateEvent::Hash(Some("abc".to_string())));
    feed(&mut run, &mut log, UpdateEvent::Finished(CommandResult::Completed(true)));
    feed(&mut run, &mut log, UpdateEvent::Hash(Some("def".to_string())));
    assert_eq!(run.next_action(), UpdateAction::ReadFlakeChanges);
    feed(&mut run, &mut log, UpdateEvent::FlakeChanges(vec![]));
    assert_eq!(run.next_action(), UpdateAction::Rebuild);
    feed(&mut run, &mut log, UpdateEvent::Finished(CommandResult::Completed(false)));
    assert!(log.iter().any(|m| matches!(m, CommandMessage::StepFailed { step, .. } if step == "Rebuild")));
    assert!(run.summary().rebuild_failed);
    assert_eq!(run.next_action(), UpdateAction::ComparePackages);
    feed(&mut run, &mut log, UpdateEvent::Packages {
        changes: vec![("grub".to_string(), "2.10".to_string(), "2.12".to_string())],
        closure: None,
    });
    assert!(log.iter().any(|m| matches!(m, CommandMessage::StepComplete { step } if step == "Packages")));
    tools_and_profiles(&mut run, &mut log);
    assert!(log.iter().any(|m| matches!(m, CommandMessage::StepComplete { step } if step == "Codex")));
    assert!(has_done(&log, false));
    assert!(!has_done(&log, true));
    assert!(run.summary().reboot_reasons.is_empty());
}

#[test]
fn cancelled_lock_update_ends_run() {
    let (mut run, mut log) = UpdateRun::new();
    feed(&mut run, &mut log, UpdateEvent::Flag(false));
    feed(&mut run, &mut log, UpdateEvent::Hash(None));
    feed(&mut run, &mut log, UpdateEvent::Finished(CommandResult::Cancelled));
    assert_eq!(run.next_action(), UpdateAction::Finished);
    assert!(matches!(log.last(), Some(CommandMessage::Cancelled)));
    assert!(!log.iter().any(|m| matches!(m, CommandMessage::Done { .. })));
    assert!(run.advance(UpdateEvent::Flag(true)).is_empty());
}

#[test]
fn failed_lock_update_fails_run() {
    let (mut run, mut log) = UpdateRun::new();
    feed(&mut run, &mut log, UpdateEvent::Flag(false));
    feed(&mut run, &mut log, UpdateEvent::Hash(None));
    feed(&mut run, &mut log, UpdateEvent::Finished(CommandResult::Completed(false)));
    assert!(log.iter().any(|m| matches!(m, CommandMessage::StepFailed { step, .. } if step == "flake")));
    assert!(has_done(&log, false));
    assert_eq!(run.next_action(), UpdateAction::Finished);
}

#[test]
fn pull_stage_counts_and_pulls() {
    let (mut run, mut log) = UpdateRun::new();
    feed(&mut run, &mut log, UpdateEvent::Flag(true));
    assert_eq!(run.next_action(), UpdateAction::Fetch);
    feed(&mut run, &mut log, captured(true, ""));
    assert_eq!(run.next_action(), UpdateAction::CountMain);
    feed(&mut run, &mut log, captured(false, ""));
    assert_eq!(run.next_action(), UpdateAction::CountMaster);
    feed(&mut run, &mut log, captured(true, " 3\n"));
    assert_eq!(run.next_action(), UpdateAction::Pull);
    feed(&mut run, &mut log, captured(true, ""));
    assert!(log.iter().any(|m| matches!(m, CommandMessage::Stdout(l) if l == "  ✓ Pulled 3 commit(s)")));
    assert!(log.iter().any(|m| matches!(m, CommandMessage::StepComplete { step } if step == "pull")));
    assert_eq!(run.next_action(), UpdateAction::HashLockBefore);
}

#[test]
fn pull_stage_skips_without_commits() {
    let (mut run, mut log) = UpdateRun::new();
    feed(&mut run, &mut log, UpdateEvent::Flag(true));
    feed(&mut run, &mut log, captured(true, ""));
    feed(&mut run, &mut log, captured(true, "0"));
    assert!(log.iter().any(|m| matches!(m, CommandMessage::StepSkipped { step } if step == "pull")));
    assert_eq!(run.next_action(), UpdateAction::HashLockBefore);
}

#[test]
fn unexpected_event_fails_run() {
    let (mut run, _) = UpdateRun::new();
    let ms = run.advance(UpdateEvent::Hash(None));
    assert!(matches!(&ms[0], CommandMessage::StepFailed { step, .. } if step == "Update"));
    assert!(has_done(&ms, false));
    assert_eq!(run.next_action(), UpdateAction::Finished);
}

#[test]
fn reboot_reasons_are_detected() {
    let changes = vec![
        ("GRUB".to_string(), "1".to_string(), "2".to_string()),
        ("fwupd".to_string(), "1".to_string(), "2".to_string()),
    ];
    assert_eq!(
        detect_reboot_reasons(Some("/nix/store/a-linux/bzImage\n"), Some("/nix/store/b-linux/bzImage"), &changes),
        vec!["Kernel updated", "Bootloader updated", "Firmware updated"]
    );
    assert_eq!(detect_reboot_reasons(Some(" k "), Some("k"), &vec![]), Vec::<String>::new());
    assert_eq!(detect_reboot_reasons(None, Some("k"), &vec![]), Vec::<String>::new());
}

#[test]
fn successful_run_recommends_reboot() {
    let (mut run, mut log) = UpdateRun::new();
    feed(&mut run, &mut log, UpdateEvent::Flag(false));
    feed(&mut run, &mut log, UpdateEvent::Hash(Some("a".to_string())));
    feed(&mut run, &mut log, UpdateEvent::Finished(CommandResult::Completed(true)));
    feed(&mut run, &mut log, UpdateEvent::Hash(Some("b".to_string())));
    feed(&mut run, &mut log, UpdateEvent::FlakeChanges(vec![]));
    feed(&mut run, &mut log, UpdateEvent::Finished(CommandResult::Completed(true)));
    assert_eq!(run.next_action(), UpdateAction::ReconcileShell);
    feed(&mut run, &mut log, UpdateEvent::ShellReport(Some("Noctalia".to_string())));
    assert!(log.iter().any(|m| matches!(m, CommandMessage::Stdout(l) if l == "  ✓ Restarted Noctalia shell")));
    feed(&mut run, &mut log, UpdateEvent::Packages { changes: vec![], closure: Some("+1 MiB".to_string()) });
    assert_eq!(run.next_action(), UpdateAction::ReadKernels);
    feed(&mut run, &mut log, UpdateEvent::Kernels { booted: Some("a".to_string()), current: Some("b".to_string()) });
    tools_and_profiles(&mut run, &mut log);
    assert!(log.iter().any(|m| matches!(m, CommandMessage::RebootRecommended { reasons } if reasons == &vec!["Kernel updated".to_string()])));
    assert!(has_done(&log, true));
    assert!(log.iter().any(|m| matches!(m, CommandMessage::Stdout(l) if l == "  Closure: +1 MiB")));
}

#[test]
fn summary_rendering() {
    let mut s = UpdateSummary::new();
    s.flake_changes.push(FlakeChange {
        name: "nixpkgs".to_string(),
        old_rev: "0123456789".to_string(),
        new_rev: "abcdef0123".to_string(),
        commits: vec![CommitInfo { hash: "abc1234".to_string(), message: "fix".to_string() }],
        total_commits: 3,
        compare_url: Some("https://example.org/compare".to_string()),
    });
    s.flake_changes.push(FlakeChange {
        name: "home".to_string(),
        old_rev: "0123456789".to_string(),
        new_rev: "abc".to_string(),
        commits: vec![],
        total_commits: 0,
        compare_url: None,
    });
    s.package_changes.push(("firefox".to_string(), "1".to_string(), "2".to_string()));
    s.agent_old = Some("1.0".to_string());
    s.agent_new = Some("1.0".to_string());
    s.rebuild_skipped = true;
    s.browser_status = "not configured".to_string();
    let lines = output_summary(&s);
    let expected: Vec<&str> = vec![
        "",
        "╔══════════════════════════════════════════════╗",
        "║            Update Summary                    ║",
        "╚══════════════════════════════════════════════╝",
        "",
        "  Flake inputs updated:",
        "",
        "  nixpkgs (3 commits):",
        "    abc1234 fix",
        "    ... and 2 more → https://example.org/compare",
        "",
        "  home: 0123456 → abc",
        "",
        "  Packages changed:",
        "    firefox: 1 → 2",
        "",
        "  ─────────────────────────────────────────",
        "",
        "  System:      Already up to date",
        "  Agent CLI: 1.0",
        "  Browser:     not configured",
        "",
        "══════════════════════════════════════════════",
    ];
    assert_eq!(lines, expected);
}

#[test]
fn summary_lists_updated_tools() {
    let mut s = UpdateSummary::new();
    s.codex_old = Some("0.1".to_string());
    s.codex_new = Some("0.2".to_string());
    s.rebuild_failed = true;
    let lines = output_summary(&s);
    assert!(lines.contains(&"  CLI tools updated:".to_string()));
    assert!(lines.contains(&"    Codex CLI: 0.1 → 0.2".to_string()));
    assert!(lines.contains(&"  System:      Rebuild failed".to_string()));
    assert!(!lines.iter().any(|l| l.starts_with("  Codex CLI:   ")));
}

#[test]
fn local_changes_are_listed() {
    let out = " M hosts/default.nix\n?? new.nix\n\nA\n";
    assert_eq!(parse_local_changes(out), vec!["hosts/default.nix", "new.nix", "A"]);
    assert!(parse_local_changes("").is_empty());
}

#[test]
fn default_branch_detection() {
    let head = branch_from_remote_head(true, "refs/remotes/origin/trunk\n");
    assert_eq!(head, Some("trunk".to_string()));
    assert_eq!(branch_from_remote_head(false, "refs/remotes/origin/trunk"), None);
    assert_eq!(branch_from_remote_head(true, "HEAD"), None);
    assert_eq!(default_branch(head, false), "trunk");
    assert_eq!(default_branch(None, true), "main");
    assert_eq!(default_branch(None, false), "master");
}

#[test]
fn stash_restore_report() {
    assert_eq!(
        stash_restore_lines(Ok((true, String::new(), String::new()))),
        vec!["", "Restoring stashed changes...", "  ✓ Stashed changes restored successfully"]
    );
    assert_eq!(
        stash_restore_lines(Ok((false, "a\nb".to_string(), " conflict \n".to_string()))),
        vec![
            "",
            "Restoring stashed changes...",
            "  ✗ Failed to restore stashed changes",
            "    conflict",
            "    Run 'git stash pop' manually to restore",
            "    a",
            "    b",
        ]
    );
    assert_eq!(
        stash_restore_lines(Err("no git".to_string())),
        vec![
            "",
            "Restoring stashed changes...",
            "  ✗ Error restoring stash: no git",
            "    Run 'git stash pop' manually to restore",
        ]
    );
}
