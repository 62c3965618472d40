//! The update pipeline as a state machine: pull, dependency-lock update,
//! conditional rebuild, package comparison, reboot detection, tool updates,
//! profile check and summary. The machine names the next piece of outside
//! work; its result comes back as an event, and each step yields the status
//! messages to send.
use vstd::prelude::*;
use crate::errors::{ErrorContext, ParsedError};
use crate::messages::{CommandMessage, CommandResult};
use crate::steps::{lower_of, lowercase};
use crate::summary::{output_summary, lines_view, summary_lines, FlakeChange, UpdateSummary};
use crate::text::{
    chars_of, contains_seq, decimal_string, has_sub, parse_u32, parse_u32_spec, trim,
    trim_seq,
};

verus! {

/// The command-line tools updated after the system.
#[derive(Debug, Clone, Copy, PartialEq, Eq, Structural)]
pub enum Tool {
    Agent,
    Codex,
}

/// The outside work the pipeline waits for.
#[derive(Debug, Clone, Copy, PartialEq, Eq, Structural)]
pub enum UpdateAction {
    /// Is the configuration directory under version control? (`Flag`)
    CheckRepository,
    /// Fetch from the remote. (`Captured`)
    Fetch,
    /// Count unpulled commits on `origin/main`. (`Captured`)
    CountMain,
    /// Count unpulled commits on `origin/master`. (`Captured`)
    CountMaster,
    /// Fast-forward pull. (`Captured`)
    Pull,
    /// Hash the lock file and keep a backup of it. (`Hash`)
    HashLockBefore,
    /// Update the dependency lock, streaming output through the noise filter. (`Finished`)
    UpdateLock,
    /// Hash the lock file again. (`Hash`)
    HashLockAfter,
    /// Read what changed in the lock. (`FlakeChanges`)
    ReadFlakeChanges,
    /// Rebuild the system. (`Finished`)
    Rebuild,
    /// Reconcile the desktop shell with the new build. (`ShellReport`)
    ReconcileShell,
    /// Compare package versions before and after. (`Packages`)
    ComparePackages,
    /// Read the booted and the current kernel. (`Kernels`)
    ReadKernels,
    /// Update one tool when installed, reading its version before and after. (`ToolChecked`)
    UpdateTool(Tool),
    /// Check the profile tool and its configuration. (`Profiles`)
    CheckProfiles,
    /// Nothing more to do.
    Finished,
}

/// The result of the outside work that the pipeline asked for.
#[derive(Debug, Clone)]
pub enum UpdateEvent {
    Flag(bool),
    Captured { ok: bool, stdout: String, stderr: String },
    Hash(Option<String>),
    Finished(CommandResult),
    FlakeChanges(Vec<FlakeChange>),
    ShellReport(Option<String>),
    Packages { changes: Vec<(String, String, String)>, closure: Option<String> },
    Kernels { booted: Option<String>, current: Option<String> },
    ToolChecked { installed: bool, before: Option<String>, update_ok: bool, after: Option<String> },
    Profiles { tool_present: bool, config_present: bool, status: Option<String> },
}

/// A status message with its narration left out.
pub enum Signal {
    Complete(Seq<char>),
    Failed(Seq<char>),
    Skipped(Seq<char>),
    Done(bool),
    Cancelled,
    Reboot(Seq<Seq<char>>),
    Other,
}

pub open spec fn signal_of(m: CommandMessage) -> Option<Signal> {
    match m {
        CommandMessage::Stdout(_) => None,
        CommandMessage::Stderr(_) => None,
        CommandMessage::StepComplete { step } => Some(Signal::Complete(step@)),
        CommandMessage::StepFailed { step, error } => Some(Signal::Failed(step@)),
        CommandMessage::StepSkipped { step } => Some(Signal::Skipped(step@)),
        CommandMessage::Done { success } => Some(Signal::Done(success)),
        CommandMessage::Cancelled => Some(Signal::Cancelled),
        CommandMessage::RebootRecommended { reasons } => Some(
            Signal::Reboot(lines_view(reasons@)),
        ),
        _ => Some(Signal::Other),
    }
}

/// The status messages of `ms` in order, narration left out.
pub open spec fn signals(ms: Seq<CommandMessage>) -> Seq<Signal>
    decreases ms.len(),
{
    if ms.len() == 0 {
        Seq::empty()
    } else {
        match signal_of(ms.last()) {
            Some(s) => signals(ms.drop_last()).push(s),
            None => signals(ms.drop_last()),
        }
    }
}

/// The narration lines of `ms` in order.
pub open spec fn narration(ms: Seq<CommandMessage>) -> Seq<Seq<char>>
    decreases ms.len(),
{
    if ms.len() == 0 {
        Seq::empty()
    } else {
        match ms.last() {
            CommandMessage::Stdout(l) => narration(ms.drop_last()).push(l@),
            _ => narration(ms.drop_last()),
        }
    }
}

/// Reasons to recommend a reboot: a new kernel (booted and current kernel
/// differ), a bootloader or a firmware package among the changed packages.
pub open spec fn reboot_reasons(
    booted: Option<Seq<char>>,
    current: Option<Seq<char>>,
    changes: Seq<(String, String, String)>,
) -> Seq<Seq<char>> {
    (if booted is Some && current is Some && trim(booted->0) != trim(current->0) {
        seq!["Kernel updated"@]
    } else {
        Seq::empty()
    }) + (if exists|i: int| 0 <= i < changes.len() && is_bootloader(lower_of(#[trigger] changes[i].0@)) {
        seq!["Bootloader updated"@]
    } else {
        Seq::empty()
    }) + (if exists|i: int| 0 <= i < changes.len() && is_firmware(lower_of(#[trigger] changes[i].0@)) {
        seq!["Firmware updated"@]
    } else {
        Seq::empty()
    })
}

pub open spec fn is_bootloader(name: Seq<char>) -> bool {
    has_sub(name, "limine"@) || has_sub(name, "grub"@) || has_sub(name, "refind"@)
}

pub open spec fn is_firmware(name: Seq<char>) -> bool {
    has_sub(name, "linux-firmware"@) || has_sub(name, "firmware"@) || name == "fwupd"@
}

fn trimmed_equal(a: &str, b: &str) -> (r: bool)
    ensures
        r == (trim(a@) == trim(b@)),
{
    let x = trim_seq(&chars_of(a));
    let y = trim_seq(&chars_of(b));
    if x.len() != y.len() {
        return false;
    }
    let mut i: usize = 0;
    while i < x.len()
        invariant
            x@ == trim(a@),
            y@ == trim(b@),
            x@.len() == y@.len(),
            i <= x@.len(),
            forall|j: int| 0 <= j < i ==> x@[j] == y@[j],
        decreases x@.len() - i,
    {
        if x[i] != y[i] {
            assert(x@[i as int] != y@[i as int]);
            return false;
        }
        i = i + 1;
    }
    assert(x@ =~= y@);
    true
}

fn name_has(name: &Vec<char>, part: &str) -> (r: bool)
    ensures
        r == has_sub(name@, part@),
{
    contains_seq(name, &chars_of(part))
}

fn opt_str(o: &Option<String>) -> (r: Option<&str>)
    ensures
        match o {
            Some(s) => r is Some && r->0@ == s@,
            None => r is None,
        },
{
    match o {
        Some(s) => Some(s.as_str()),
        None => None,
    }
}

pub open spec fn opt_seq(o: Option<&str>) -> Option<Seq<char>> {
    match o {
        Some(s) => Some(s@),
        None => None,
    }
}

/// Decide the reasons to recommend a reboot from the booted and current
/// kernel paths (when both could be read) and the changed packages.
pub fn detect_reboot_reasons(
    booted: Option<&str>,
    current: Option<&str>,
    package_changes: &Vec<(String, String, String)>,
) -> (r: Vec<String>)
    ensures
        lines_view(r@) == reboot_reasons(opt_seq(booted), opt_seq(current), package_changes@),
{
    let mut reasons: Vec<String> = Vec::new();
    let kernel = match (booted, current) {
        (Some(b), Some(c)) => !trimmed_equal(b, c),
        _ => false,
    };
    if kernel {
        reasons.push(String::from_str("Kernel updated"));
    }
    let mut bootloader = false;
    let mut firmware = false;
    let mut i: usize = 0;
    while i < package_changes.len()
        invariant
            i <= package_changes@.len(),
            bootloader == exists|k: int| 0 <= k < i && is_bootloader(lower_of(#[trigger] package_changes@[k].0@)),
            firmware == exists|k: int| 0 <= k < i && is_firmware(lower_of(#[trigger] package_changes@[k].0@)),
        decreases package_changes@.len() - i,
    {
        let lower = lowercase(package_changes[i].0.as_str());
        let name = chars_of(lower.as_str());
        let fw_exact = name.len() == 5 && name_has(&name, "fwupd");
        proof {
            reveal_strlit("fwupd");
            if name@.len() == 5 && has_sub(name@, "fwupd"@) {
                let j = choose|j: int| crate::text::occurs_at(name@, "fwupd"@, j);
                assert(j == 0);
                assert(name@.subrange(0, 5) =~= name@);
            }
            if name@ == "fwupd"@ {
                assert(name@.subrange(0, 5) =~= name@);
                assert(crate::text::occurs_at(name@, "fwupd"@, 0));
            }
        }
        if name_has(&name, "limine") || name_has(&name, "grub") || name_has(&name, "refind") {
            bootloader = true;
        }
        if name_has(&name, "linux-firmware") || name_has(&name, "firmware") || fw_exact {
            firmware = true;
        }
        i = i + 1;
    }
    if bootloader {
        reasons.push(String::from_str("Bootloader updated"));
    }
    if firmware {
        reasons.push(String::from_str("Firmware updated"));
    }
    assert(lines_view(reasons@) =~= reboot_reasons(opt_seq(booted), opt_seq(current), package_changes@));
    reasons
}

pub open spec fn tool_step(t: Tool) -> Seq<char> {
    match t {
        Tool::Agent => "Agent"@,
        Tool::Codex => "Codex"@,
    }
}

/// The number of unpulled commits that `git rev-list --count` printed; zero
/// when the output is not a number.
pub open spec fn commit_count(out: Seq<char>) -> u32 {
    match parse_u32_spec(trim(out)) {
        Some(n) => n,
        None => 0,
    }
}

pub open spec fn hash_view(h: Option<String>) -> Option<Seq<char>> {
    match h {
        Some(s) => Some(s@),
        None => None,
    }
}

/// The browser status recorded by the profile check.
pub open spec fn browser_status_of(tool_present: bool, config_present: bool, status: Option<String>) -> Seq<char> {
    if tool_present && config_present {
        match status {
            Some(s) => s@,
            None => "unknown"@,
        }
    } else {
        "not configured"@
    }
}

/// Whether `e` is the kind of event that answers `a`.
pub open spec fn answers(a: UpdateAction, e: UpdateEvent) -> bool {
    match a {
        UpdateAction::CheckRepository => e is Flag,
        UpdateAction::Fetch | UpdateAction::CountMain | UpdateAction::CountMaster
        | UpdateAction::Pull => e is Captured,
        UpdateAction::HashLockBefore | UpdateAction::HashLockAfter => e is Hash,
        UpdateAction::UpdateLock | UpdateAction::Rebuild => e is Finished,
        UpdateAction::ReadFlakeChanges => e is FlakeChanges,
        UpdateAction::ReconcileShell => e is ShellReport,
        UpdateAction::ComparePackages => e is Packages,
        UpdateAction::ReadKernels => e is Kernels,
        UpdateAction::UpdateTool(_) => e is ToolChecked,
        UpdateAction::CheckProfiles => e is Profiles,
        UpdateAction::Finished => true,
    }
}

/// The action that follows `a` once `e` has answered it.
pub open spec fn next_after(
    a: UpdateAction,
    lock_before: Option<Seq<char>>,
    s: UpdateSummary,
    e: UpdateEvent,
) -> UpdateAction {
    if !answers(a, e) {
        UpdateAction::Finished
    } else {
        match (a, e) {
            (UpdateAction::CheckRepository, UpdateEvent::Flag(repo)) => if repo {
                UpdateAction::Fetch
            } else {
                UpdateAction::HashLockBefore
            },
            (UpdateAction::Fetch, UpdateEvent::Captured { ok, .. }) => if ok {
                UpdateAction::CountMain
            } else {
                UpdateAction::HashLockBefore
            },
            (UpdateAction::CountMain, UpdateEvent::Captured { ok, stdout, .. }) => if !ok {
                UpdateAction::CountMaster
            } else if commit_count(stdout@) > 0 {
                UpdateAction::Pull
            } else {
                UpdateAction::HashLockBefore
            },
            (UpdateAction::CountMaster, UpdateEvent::Captured { ok, stdout, .. }) => if ok
                && commit_count(stdout@) > 0 {
                UpdateAction::Pull
            } else {
                UpdateAction::HashLockBefore
            },
            (UpdateAction::Pull, _) => UpdateAction::HashLockBefore,
            (UpdateAction::HashLockBefore, _) => UpdateAction::UpdateLock,
            (UpdateAction::UpdateLock, UpdateEvent::Finished(r)) => if r == CommandResult::Completed(
                true,
            ) {
                UpdateAction::HashLockAfter
            } else {
                UpdateAction::Finished
            },
            (UpdateAction::HashLockAfter, UpdateEvent::Hash(h)) => if hash_view(h) != lock_before {
                UpdateAction::ReadFlakeChanges
            } else {
                UpdateAction::ComparePackages
            },
            (UpdateAction::ReadFlakeChanges, _) => UpdateAction::Rebuild,
            (UpdateAction::Rebuild, UpdateEvent::Finished(r)) => match r {
                CommandResult::Cancelled => UpdateAction::Finished,
                CommandResult::Completed(true) => UpdateAction::ReconcileShell,
                CommandResult::Completed(false) => UpdateAction::ComparePackages,
            },
            (UpdateAction::ReconcileShell, _) => UpdateAction::ComparePackages,
            (UpdateAction::ComparePackages, _) => if !s.rebuild_failed && !s.rebuild_skipped {
                UpdateAction::ReadKernels
            } else {
                UpdateAction::UpdateTool(Tool::Agent)
            },
            (UpdateAction::ReadKernels, _) => UpdateAction::UpdateTool(Tool::Agent),
            (UpdateAction::UpdateTool(Tool::Agent), _) => UpdateAction::UpdateTool(Tool::Codex),
            (UpdateAction::UpdateTool(Tool::Codex), _) => UpdateAction::CheckProfiles,
            _ => UpdateAction::Finished,
        }
    }
}

/// The status messages sent when `e` answers `a`; `t` is the summary after
/// the step.
pub open spec fn signals_after(
    a: UpdateAction,
    lock_before: Option<Seq<char>>,
    t: UpdateSummary,
    e: UpdateEvent,
) -> Seq<Signal> {
    if a == UpdateAction::Finished {
        Seq::empty()
    } else if !answers(a, e) {
        seq![Signal::Failed("Update"@), Signal::Done(false)]
    } else {
        match (a, e) {
            (UpdateAction::CheckRepository, UpdateEvent::Flag(repo)) => if repo {
                Seq::empty()
            } else {
                seq![Signal::Skipped("pull"@)]
            },
            (UpdateAction::Fetch, UpdateEvent::Captured { ok, .. }) => if ok {
                Seq::empty()
            } else {
                seq![Signal::Skipped("pull"@)]
            },
            (UpdateAction::CountMain, UpdateEvent::Captured { ok, stdout, .. }) => if ok
                && commit_count(stdout@) == 0 {
                seq![Signal::Skipped("pull"@)]
            } else {
                Seq::empty()
            },
            (UpdateAction::CountMaster, UpdateEvent::Captured { ok, stdout, .. }) => if ok
                && commit_count(stdout@) > 0 {
                Seq::empty()
            } else {
                seq![Signal::Skipped("pull"@)]
            },
            (UpdateAction::Pull, UpdateEvent::Captured { ok, .. }) => if ok {
                seq![Signal::Complete("pull"@)]
            } else {
                seq![Signal::Failed("pull"@)]
            },
            (UpdateAction::UpdateLock, UpdateEvent::Finished(r)) => match r {
                CommandResult::Cancelled => seq![Signal::Cancelled],
                CommandResult::Completed(false) => seq![Signal::Failed("flake"@), Signal::Done(false)],
                CommandResult::Completed(true) => seq![Signal::Complete("flake"@)],
            },
            (UpdateAction::HashLockAfter, UpdateEvent::Hash(h)) => if hash_view(h) != lock_before {
                Seq::empty()
            } else {
                seq![Signal::Skipped("Rebuild"@)]
            },
            (UpdateAction::Rebuild, UpdateEvent::Finished(r)) => match r {
                CommandResult::Cancelled => seq![Signal::Cancelled],
                CommandResult::Completed(true) => seq![Signal::Complete("Rebuild"@)],
                CommandResult::Completed(false) => seq![Signal::Failed("Rebuild"@)],
            },
            (UpdateAction::ComparePackages, _) => seq![Signal::Complete("Packages"@)],
            (UpdateAction::UpdateTool(tool), UpdateEvent::ToolChecked { installed, .. }) => if installed {
                seq![Signal::Complete(tool_step(tool))]
            } else {
                seq![Signal::Skipped(tool_step(tool))]
            },
            (UpdateAction::CheckProfiles, UpdateEvent::Profiles { tool_present, .. }) => (if tool_present {
                seq![Signal::Complete("browser"@)]
            } else {
                seq![Signal::Skipped("browser"@)]
            }) + (if t.reboot_reasons@.len() > 0 {
                seq![Signal::Reboot(lines_view(t.reboot_reasons@))]
            } else {
                Seq::empty()
            }) + seq![Signal::Done(!t.rebuild_failed)],
            _ => Seq::empty(),
        }
    }
}

/// How the summary `s` becomes `t` when `e` answers `a`.
pub open spec fn summary_step(
    s: UpdateSummary,
    t: UpdateSummary,
    a: UpdateAction,
    lock_before: Option<Seq<char>>,
    e: UpdateEvent,
) -> bool {
    if !answers(a, e) {
        t == s
    } else {
        match (a, e) {
            (UpdateAction::HashLockAfter, UpdateEvent::Hash(h)) => if hash_view(h) == lock_before {
                t == UpdateSummary { rebuild_skipped: true, ..s }
            } else {
                t == s
            },
            (UpdateAction::ReadFlakeChanges, UpdateEvent::FlakeChanges(v)) => t == UpdateSummary {
                flake_changes: v,
                ..s
            },
            (UpdateAction::Rebuild, UpdateEvent::Finished(r)) => if r == CommandResult::Completed(
                false,
            ) {
                t == UpdateSummary { rebuild_failed: true, ..s }
            } else {
                t == s
            },
            (UpdateAction::ComparePackages, UpdateEvent::Packages { changes, closure }) => t
                == UpdateSummary { package_changes: changes, closure_summary: closure, ..s },
            (UpdateAction::ReadKernels, UpdateEvent::Kernels { booted, current }) => t
                == UpdateSummary { reboot_reasons: t.reboot_reasons, ..s } && lines_view(
                t.reboot_reasons@,
            ) == reboot_reasons(hash_view(booted), hash_view(current), s.package_changes@),
            (
                UpdateAction::UpdateTool(Tool::Agent),
                UpdateEvent::ToolChecked { installed, before, after, .. },
            ) => if installed {
                t == UpdateSummary { agent_old: before, agent_new: after, ..s }
            } else {
                t == s
            },
            (
                UpdateAction::UpdateTool(Tool::Codex),
                UpdateEvent::ToolChecked { installed, before, after, .. },
            ) => if installed {
                t == UpdateSummary { codex_old: before, codex_new: after, ..s }
            } else {
                t == s
            },
            (
                UpdateAction::CheckProfiles,
                UpdateEvent::Profiles { tool_present, config_present, status },
            ) => t == UpdateSummary { browser_status: t.browser_status, ..s } && t.browser_status@
                == browser_status_of(tool_present, config_present, status),
            _ => t == s,
        }
    }
}

/// One update run: the action it waits for and what it has found so far.
#[derive(Debug)]
pub struct UpdateRun {
    next: UpdateAction,
    summary: UpdateSummary,
    lock_before: Option<String>,
    pull_count: u32,
}

fn push_msg(ms: &mut Vec<CommandMessage>, m: CommandMessage)
    ensures
        signals(final(ms)@) == match signal_of(m) {
            Some(x) => signals(old(ms)@).push(x),
            None => signals(old(ms)@),
        },
        narration(final(ms)@) == match m {
            CommandMessage::Stdout(l) => narration(old(ms)@).push(l@),
            _ => narration(old(ms)@),
        },
{
    ms.push(m);
    assert(ms@.drop_last() =~= old(ms)@);
}

fn say(ms: &mut Vec<CommandMessage>, line: &str)
    ensures
        signals(final(ms)@) == signals(old(ms)@),
        narration(final(ms)@) == narration(old(ms)@).push(line@),
{
    push_msg(ms, CommandMessage::Stdout(String::from_str(line)));
}

fn complete(ms: &mut Vec<CommandMessage>, step: &str)
    ensures
        signals(final(ms)@) == signals(old(ms)@).push(Signal::Complete(step@)),
        narration(final(ms)@) == narration(old(ms)@),
{
    push_msg(ms, CommandMessage::StepComplete { step: String::from_str(step) });
}

fn skipped(ms: &mut Vec<CommandMessage>, step: &str)
    ensures
        signals(final(ms)@) == signals(old(ms)@).push(Signal::Skipped(step@)),
        narration(final(ms)@) == narration(old(ms)@),
{
    push_msg(ms, CommandMessage::StepSkipped { step: String::from_str(step) });
}

fn failed(ms: &mut Vec<CommandMessage>, step: &str, stderr: &str, operation: &str)
    ensures
        signals(final(ms)@) == signals(old(ms)@).push(Signal::Failed(step@)),
        narration(final(ms)@) == narration(old(ms)@),
{
    let error = ParsedError::from_stderr(stderr, ErrorContext { operation: String::from_str(operation) });
    push_msg(ms, CommandMessage::StepFailed { step: String::from_str(step), error });
}

fn banner(ms: &mut Vec<CommandMessage>, title: &str)
    ensures
        signals(final(ms)@) == signals(old(ms)@),
{
    say(ms, "");
    say(ms, "══════════════════════════════════════════════");
    say(ms, title);
    say(ms, "══════════════════════════════════════════════");
    say(ms, "");
}

fn commit_count_exec(out: &String) -> (r: u32)
    ensures
        r == commit_count(out@),
{
    match parse_u32(&trim_seq(&chars_of(out.as_str()))) {
        Some(n) => n,
        None => 0,
    }
}

fn same_hash(a: &Option<String>, b: &Option<String>) -> (r: bool)
    ensures
        r == (hash_view(*a) == hash_view(*b)),
{
    match (a, b) {
        (Some(x), Some(y)) => trimless_equal(x, y),
        (None, None) => true,
        _ => false,
    }
}

fn trimless_equal(a: &String, b: &String) -> (r: bool)
    ensures
        r == (a@ == b@),
{
    let x = chars_of(a.as_str());
    let y = chars_of(b.as_str());
    if x.len() != y.len() {
        return false;
    }
    let mut i: usize = 0;
    while i < x.len()
        invariant
            x@ == a@,
            y@ == b@,
            x@.len() == y@.len(),
            i <= x@.len(),
            forall|j: int| 0 <= j < i ==> x@[j] == y@[j],
        decreases x@.len() - i,
    {
        if x[i] != y[i] {
            assert(x@[i as int] != y@[i as int]);
            return false;
        }
        i = i + 1;
    }
    assert(x@ =~= y@);
    true
}

impl UpdateRun {
    pub closed spec fn action(&self) -> UpdateAction {
        self.next
    }

    pub closed spec fn found(&self) -> UpdateSummary {
        self.summary
    }

    pub closed spec fn lock_hash_before(&self) -> Option<Seq<char>> {
        hash_view(self.lock_before)
    }

    /// A new run, waiting to check the repository; the messages are the
    /// run's opening narration.
    pub fn new() -> (r: (UpdateRun, Vec<CommandMessage>))
        ensures
            r.0.action() == UpdateAction::CheckRepository,
            r.0.found().is_fresh(),
            r.0.lock_hash_before() is None,
            signals(r.1@) == Seq::<Signal>::empty(),
    {
        let mut ms: Vec<CommandMessage> = Vec::new();
        say(&mut ms, "");
        say(&mut ms, "==============================================");
        say(&mut ms, "  NixOS System Update");
        say(&mut ms, "==============================================");
        say(&mut ms, "");
        let run = UpdateRun {
            next: UpdateAction::CheckRepository,
            summary: UpdateSummary::new(),
            lock_before: None,
            pull_count: 0,
        };
        (run, ms)
    }

    /// The outside work the run waits for.
    pub fn next_action(&self) -> (r: UpdateAction)
        ensures
            r == self.action(),
    {
        self.next
    }

    /// What the run has found so far.
    pub fn summary(&self) -> (r: &UpdateSummary)
        ensures
            *r == self.found(),
    {
        &self.summary
    }

    /// Take the answer `e` to the awaited action: record what it tells,
    /// move to the next action and return the messages to send.
    #[verifier::rlimit(50)]
    pub fn advance(&mut self, e: UpdateEvent) -> (r: Vec<CommandMessage>)
        ensures
            final(self).action() == next_after(
                old(self).action(),
                old(self).lock_hash_before(),
                old(self).found(),
                e,
            ),
            summary_step(
                old(self).found(),
                final(self).found(),
                old(self).action(),
                old(self).lock_hash_before(),
                e,
            ),
            signals(r@) == signals_after(
                old(self).action(),
                old(self).lock_hash_before(),
                final(self).found(),
                e,
            ),
            old(self).action() == UpdateAction::HashLockBefore && e is Hash ==> final(self).lock_hash_before() == hash_view(e->Hash_0),
            !(old(self).action() == UpdateAction::HashLockBefore && e is Hash) ==> final(self).lock_hash_before() == old(self).lock_hash_before(),
            old(self).action() == UpdateAction::CheckProfiles && e is Profiles ==> narration(r@)
                == seq![profile_line(e->Profiles_tool_present, e->Profiles_config_present)]
                + summary_lines(final(self).found()),
    {
        let mut ms: Vec<CommandMessage> = Vec::new();
        let a = self.next;
        match a {
            UpdateAction::Finished => {
                return ms;
            },
            _ => {},
        }
        match (a, e) {
            (UpdateAction::CheckRepository, UpdateEvent::Flag(repo)) => {
                if repo {
                    self.next = UpdateAction::Fetch;
                } else {
                    say(&mut ms, "  - Not a git repository, skipping pull");
                    skipped(&mut ms, "pull");
                    self.next = UpdateAction::HashLockBefore;
                }
            },
            (UpdateAction::Fetch, UpdateEvent::Captured { ok, .. }) => {
                if ok {
                    self.next = UpdateAction::CountMain;
                } else {
                    say(&mut ms, "  - Unable to fetch from remote");
                    skipped(&mut ms, "pull");
                    self.next = UpdateAction::HashLockBefore;
                }
            },
            (UpdateAction::CountMain, UpdateEvent::Captured { ok, stdout, .. }) => {
                if !ok {
                    self.next = UpdateAction::CountMaster;
                } else {
                    self.decide_pull(&mut ms, commit_count_exec(&stdout));
                }
            },
            (UpdateAction::CountMaster, UpdateEvent::Captured { ok, stdout, .. }) => {
                let n = if ok {
                    commit_count_exec(&stdout)
                } else {
                    0
                };
                self.decide_pull(&mut ms, n);
            },
            (UpdateAction::Pull, UpdateEvent::Captured { ok, stderr, .. }) => {
                if ok {
                    let mut l = String::from_str("  ✓ Pulled ");
                    let n = decimal_string(self.pull_count as u64);
                    l.append(n.as_str());
                    l.append(" commit(s)");
                    push_msg(&mut ms, CommandMessage::Stdout(l));
                    complete(&mut ms, "pull");
                } else {
                    say(&mut ms, "  ✗ Failed to pull configuration updates");
                    failed(&mut ms, "pull", stderr.as_str(), "Git pull");
                }
                self.next = UpdateAction::HashLockBefore;
            },
            (UpdateAction::HashLockBefore, UpdateEvent::Hash(h)) => {
                self.lock_before = h;
                banner(&mut ms, "  Updating Flake Inputs");
                self.next = UpdateAction::UpdateLock;
            },
            (UpdateAction::UpdateLock, UpdateEvent::Finished(result)) => {
                say(&mut ms, "");
                match result {
                    CommandResult::Cancelled => {
                        say(&mut ms, "  ⊘ Flake update cancelled");
                        push_msg(&mut ms, CommandMessage::Cancelled);
                        self.next = UpdateAction::Finished;
                    },
                    CommandResult::Completed(false) => {
                        say(&mut ms, "  ✗ Flake update failed");
                        failed(
                            &mut ms,
                            "flake",
                            "Flake update failed - see output above for details",
                            "Flake update",
                        );
                        push_msg(&mut ms, CommandMessage::Done { success: false });
                        self.next = UpdateAction::Finished;
                    },
                    CommandResult::Completed(true) => {
                        say(&mut ms, "  ✓ Flake inputs updated");
                        complete(&mut ms, "flake");
                        self.next = UpdateAction::HashLockAfter;
                    },
                }
            },
            (UpdateAction::HashLockAfter, UpdateEvent::Hash(h)) => {
                if !same_hash(&self.lock_before, &h) {
                    self.next = UpdateAction::ReadFlakeChanges;
                } else {
                    say(&mut ms, "");
                    say(&mut ms, "  - Skipping rebuild (no changes)");
                    self.summary.rebuild_skipped = true;
                    skipped(&mut ms, "Rebuild");
                    self.next = UpdateAction::ComparePackages;
                }
            },
            (UpdateAction::ReadFlakeChanges, UpdateEvent::FlakeChanges(v)) => {
                self.summary.flake_changes = v;
                banner(&mut ms, "  Rebuilding System");
                self.next = UpdateAction::Rebuild;
            },
            (UpdateAction::Rebuild, UpdateEvent::Finished(result)) => {
                say(&mut ms, "");
                match result {
                    CommandResult::Cancelled => {
                        say(&mut ms, "  ⊘ System rebuild cancelled");
                        push_msg(&mut ms, CommandMessage::Cancelled);
                        self.next = UpdateAction::Finished;
                    },
                    CommandResult::Completed(true) => {
                        say(&mut ms, "  ✓ System rebuilt successfully");
                        complete(&mut ms, "Rebuild");
                        self.next = UpdateAction::ReconcileShell;
                    },
                    CommandResult::Completed(false) => {
                        say(&mut ms, "  ✗ System rebuild failed");
                        self.summary.rebuild_failed = true;
                        failed(
                            &mut ms,
                            "Rebuild",
                            "System rebuild failed - see output above for details",
                            "System rebuild",
                        );
                        self.next = UpdateAction::ComparePackages;
                    },
                }
            },
            (UpdateAction::ReconcileShell, UpdateEvent::ShellReport(report)) => {
                if let Some(name) = report {
                    let mut l = String::from_str("  ✓ Restarted ");
                    l.append(name.as_str());
                    l.append(" shell");
                    push_msg(&mut ms, CommandMessage::Stdout(l));
                }
                self.next = UpdateAction::ComparePackages;
            },
            (UpdateAction::ComparePackages, UpdateEvent::Packages { changes, closure }) => {
                self.summary.package_changes = changes;
                self.summary.closure_summary = closure;
                if self.summary.package_changes.len() == 0 {
                    say(&mut ms, "  - No package version changes");
                } else {
                    let mut l = String::from_str("  ✓ ");
                    let n = decimal_string(self.summary.package_changes.len() as u64);
                    l.append(n.as_str());
                    l.append(" packages updated");
                    push_msg(&mut ms, CommandMessage::Stdout(l));
                }
                complete(&mut ms, "Packages");
                if !self.summary.rebuild_failed && !self.summary.rebuild_skipped {
                    self.next = UpdateAction::ReadKernels;
                } else {
                    self.next = UpdateAction::UpdateTool(Tool::Agent);
                }
            },
            (UpdateAction::ReadKernels, UpdateEvent::Kernels { booted, current }) => {
                let reasons = detect_reboot_reasons(
                    opt_str(&booted),
                    opt_str(&current),
                    &self.summary.package_changes,
                );
                self.summary.reboot_reasons = reasons;
                self.next = UpdateAction::UpdateTool(Tool::Agent);
            },
            (UpdateAction::UpdateTool(tool), UpdateEvent::ToolChecked { installed, before, update_ok, after }) => {
                self.record_tool(&mut ms, tool, installed, before, update_ok, after);
            },
            (UpdateAction::CheckProfiles, UpdateEvent::Profiles { tool_present, config_present, status }) => {
                self.finish(&mut ms, tool_present, config_present, status);
            },
            _ => {
                failed(&mut ms, "Update", "unexpected event in the update pipeline", "Update");
                push_msg(&mut ms, CommandMessage::Done { success: false });
                self.next = UpdateAction::Finished;
            },
        }
        ms
    }

    fn decide_pull(&mut self, ms: &mut Vec<CommandMessage>, n: u32)
        ensures
            final(self).summary == old(self).summary,
            final(self).lock_before == old(self).lock_before,
            final(self).next == if n > 0 {
                UpdateAction::Pull
            } else {
                UpdateAction::HashLockBefore
            },
            signals(final(ms)@) == if n > 0 {
                signals(old(ms)@)
            } else {
                signals(old(ms)@).push(Signal::Skipped("pull"@))
            },
    {
        if n == 0 {
            say(ms, "  - No configuration updates to pull");
            skipped(ms, "pull");
            self.next = UpdateAction::HashLockBefore;
        } else {
            self.pull_count = n;
            self.next = UpdateAction::Pull;
        }
    }

    fn record_tool(
        &mut self,
        ms: &mut Vec<CommandMessage>,
        tool: Tool,
        installed: bool,
        before: Option<String>,
        update_ok: bool,
        after: Option<String>,
    )
        ensures
            final(self).lock_before == old(self).lock_before,
            final(self).next == match tool {
                Tool::Agent => UpdateAction::UpdateTool(Tool::Codex),
                Tool::Codex => UpdateAction::CheckProfiles,
            },
            final(self).summary == if !installed {
                old(self).summary
            } else {
                match tool {
                    Tool::Agent => (UpdateSummary { agent_old: before, agent_new: after, ..old(self).summary }),
                    Tool::Codex => (UpdateSummary { codex_old: before, codex_new: after, ..old(self).summary }),
                }
            },
            signals(final(ms)@) == signals(old(ms)@).push(
                if installed {
                    Signal::Complete(tool_step(tool))
                } else {
                    Signal::Skipped(tool_step(tool))
                },
            ),
    {
        let step = match tool {
            Tool::Agent => "Agent",
            Tool::Codex => "Codex",
        };
        let label = match tool {
            Tool::Agent => "Agent CLI",
            Tool::Codex => "Codex CLI",
        };
        if installed {
            let mut l = String::from_str(if update_ok { "  ✓ Updating " } else { "  ✗ Updating " });
            l.append(label);
            push_msg(ms, CommandMessage::Stdout(l));
            match tool {
                Tool::Agent => {
                    self.summary.agent_old = before;
                    self.summary.agent_new = after;
                },
                Tool::Codex => {
                    self.summary.codex_old = before;
                    self.summary.codex_new = after;
                },
            }
            complete(ms, step);
        } else {
            let mut l = String::from_str("  - ");
            l.append(label);
            l.append(" not installed");
            push_msg(ms, CommandMessage::Stdout(l));
            skipped(ms, step);
        }
        self.next = match tool {
            Tool::Agent => UpdateAction::UpdateTool(Tool::Codex),
            Tool::Codex => UpdateAction::CheckProfiles,
        };
    }

    fn finish(
        &mut self,
        ms: &mut Vec<CommandMessage>,
        tool_present: bool,
        config_present: bool,
        status: Option<String>,
    )
        requires
            old(ms)@.len() == 0,
        ensures
            final(self).lock_before == old(self).lock_before,
            final(self).next == UpdateAction::Finished,
            final(self).summary == (UpdateSummary {
                browser_status: final(self).summary.browser_status,
                ..old(self).summary
            }),
            final(self).summary.browser_status@ == browser_status_of(tool_present, config_present, status),
            signals(final(ms)@) == (if tool_present {
                seq![Signal::Complete("browser"@)]
            } else {
                seq![Signal::Skipped("browser"@)]
            }) + (if final(self).summary.reboot_reasons@.len() > 0 {
                seq![Signal::Reboot(lines_view(final(self).summary.reboot_reasons@))]
            } else {
                Seq::empty()
            }) + seq![Signal::Done(!final(self).summary.rebuild_failed)],
            narration(final(ms)@) == seq![profile_line(tool_present, config_present)]
                + summary_lines(final(self).summary),
    {
        assert(signals(ms@) =~= Seq::<Signal>::empty());
        assert(narration(ms@) =~= Seq::<Seq<char>>::empty());
        if tool_present {
            if config_present {
                self.summary.browser_status = match status {
                    Some(s) => s,
                    None => String::from_str("unknown"),
                };
                say(ms, "  ✓ Browser profiles up to date");
            } else {
                self.summary.browser_status = String::from_str("not configured");
                say(ms, "  - Browser profiles not configured");
            }
            complete(ms, "browser");
        } else {
            self.summary.browser_status = String::from_str("not configured");
            say(ms, "  - App backup not configured");
            skipped(ms, "browser");
        }
        let ghost sig0 = signals(ms@);
        let lines = output_summary(&self.summary);
        let mut i: usize = 0;
        let ghost n0 = narration(ms@);
        while i < lines.len()
            invariant
                i <= lines@.len(),
                lines_view(lines@) == summary_lines(self.summary),
                signals(ms@) == sig0,
                narration(ms@) == n0 + lines_view(lines@).subrange(0, i as int),
            decreases lines@.len() - i,
        {
            push_msg(ms, CommandMessage::Stdout(lines[i].clone()));
            assert(n0 + lines_view(lines@).subrange(0, i + 1) =~= (n0 + lines_view(lines@).subrange(0, i as int)).push(lines@[i as int]@));
            i = i + 1;
        }
        assert(lines_view(lines@).subrange(0, lines@.len() as int) =~= lines_view(lines@));
        assert(n0 == seq![profile_line(tool_present, config_present)]);
        assert(narration(ms@) == seq![profile_line(tool_present, config_present)] + summary_lines(self.summary));
        if self.summary.reboot_reasons.len() > 0 {
            let mut reasons: Vec<String> = Vec::new();
            let mut k: usize = 0;
            while k < self.summary.reboot_reasons.len()
                invariant
                    k <= self.summary.reboot_reasons@.len(),
                    lines_view(reasons@) == lines_view(self.summary.reboot_reasons@).subrange(0, k as int),
                decreases self.summary.reboot_reasons@.len() - k,
            {
                let ghost prev = reasons@;
                let c = self.summary.reboot_reasons[k].clone();
                reasons.push(c);
                assert(reasons@ == prev.push(c));
                assert(lines_view(reasons@) =~= lines_view(prev).push(c@));
                assert(lines_view(reasons@) =~= lines_view(self.summary.reboot_reasons@).subrange(0, k + 1));
                k = k + 1;
            }
            assert(lines_view(self.summary.reboot_reasons@).subrange(0, k as int) =~= lines_view(self.summary.reboot_reasons@));
            push_msg(ms, CommandMessage::RebootRecommended { reasons });
        }
        push_msg(ms, CommandMessage::Done { success: !self.summary.rebuild_failed });
        self.next = UpdateAction::Finished;
    }
}

pub open spec fn profile_line(tool_present: bool, config_present: bool) -> Seq<char> {
    if tool_present {
        if config_present {
            "  ✓ Browser profiles up to date"@
        } else {
            "  - Browser profiles not configured"@
        }
    } else {
        "  - App backup not configured"@
    }
}

/// A failed rebuild is recorded, and the pipeline goes on to compare
/// packages rather than stopping.
pub proof fn lemma_failed_rebuild_continues(
    s: UpdateSummary,
    t: UpdateSummary,
    lock_before: Option<Seq<char>>,
)
    requires
        summary_step(
            s,
            t,
            UpdateAction::Rebuild,
            lock_before,
            UpdateEvent::Finished(CommandResult::Completed(false)),
        ),
    ensures
        t.rebuild_failed,
        next_after(
            UpdateAction::Rebuild,
            lock_before,
            s,
            UpdateEvent::Finished(CommandResult::Completed(false)),
        ) == UpdateAction::ComparePackages,
        signals_after(
            UpdateAction::Rebuild,
            lock_before,
            t,
            UpdateEvent::Finished(CommandResult::Completed(false)),
        ) == seq![Signal::Failed("Rebuild"@)],
{
}

/// Only a failed rebuild marks the run as failed: every other step keeps
/// the flag as it was.
pub proof fn lemma_failure_only_from_rebuild(
    s: UpdateSummary,
    t: UpdateSummary,
    a: UpdateAction,
    lock_before: Option<Seq<char>>,
    e: UpdateEvent,
)
    requires
        summary_step(s, t, a, lock_before, e),
        !(a == UpdateAction::Rebuild && e == UpdateEvent::Finished(CommandResult::Completed(false))),
    ensures
        t.rebuild_failed == s.rebuild_failed,
{
}

/// When the lock is unchanged the rebuild is skipped and recorded as such,
/// and the pipeline goes on to compare packages.
pub proof fn lemma_unchanged_lock_skips_rebuild(
    s: UpdateSummary,
    t: UpdateSummary,
    lock_before: Option<Seq<char>>,
    h: Option<String>,
)
    requires
        hash_view(h) == lock_before,
        summary_step(s, t, UpdateAction::HashLockAfter, lock_before, UpdateEvent::Hash(h)),
    ensures
        t.rebuild_skipped,
        t.rebuild_failed == s.rebuild_failed,
        next_after(UpdateAction::HashLockAfter, lock_before, s, UpdateEvent::Hash(h))
            == UpdateAction::ComparePackages,
        signals_after(UpdateAction::HashLockAfter, lock_before, t, UpdateEvent::Hash(h)) == seq![
            Signal::Skipped("Rebuild"@),
        ],
{
}

} // verus!
