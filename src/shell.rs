//! Reconciliation of the desktop shell after a rebuild: which running
//! instances are stale, which to terminate, and whether to launch one.
use vstd::prelude::*;
use crate::text::{
    chars_of, contains_seq, decimal, decimal_string, has_sub, lines_of, parse_u32,
    parse_u32_spec, slice_chars, split_lines, split_words, string_of, words,
};

verus! {

/// The Quickshell-based desktop shells that are recognised.
#[derive(Debug, Clone, Copy, PartialEq, Eq, Structural)]
pub enum ShellType {
    Noctalia,
    Illogical,
}

pub open spec fn shell_name(t: ShellType) -> Seq<char> {
    match t {
        ShellType::Noctalia => "Noctalia"@,
        ShellType::Illogical => "Illogical Impulse"@,
    }
}

pub open spec fn restart_program(t: ShellType) -> Seq<char> {
    match t {
        ShellType::Noctalia => "noctalia-shell"@,
        ShellType::Illogical => "quickshell"@,
    }
}

pub open spec fn restart_args(t: ShellType) -> Seq<Seq<char>> {
    match t {
        ShellType::Noctalia => Seq::empty(),
        ShellType::Illogical => seq!["-c"@, "~/.config/quickshell/ii"@],
    }
}

pub open spec fn config_suffix(t: ShellType) -> Seq<char> {
    match t {
        ShellType::Noctalia => "/.config/quickshell/noctalia-shell"@,
        ShellType::Illogical => "/.config/quickshell/ii"@,
    }
}

impl ShellType {
    /// Display name for the shell.
    pub fn name(&self) -> (r: &'static str)
        ensures
            r@ == shell_name(*self),
    {
        match self {
            ShellType::Noctalia => "Noctalia",
            ShellType::Illogical => "Illogical Impulse",
        }
    }

    /// Program and arguments that start this shell.
    pub fn restart_command(&self) -> (r: (&'static str, Vec<&'static str>))
        ensures
            r.0@ == restart_program(*self),
            r.1@.len() == restart_args(*self).len(),
            forall|i: int| 0 <= i < r.1@.len() ==> (#[trigger] r.1@[i])@ == restart_args(*self)[i],
    {
        match self {
            ShellType::Noctalia => ("noctalia-shell", vec![]),
            ShellType::Illogical => ("quickshell", vec!["-c", "~/.config/quickshell/ii"]),
        }
    }

    /// The configuration link whose target is the expected path, under the
    /// home directory `home`; none without a home directory.
    pub fn config_symlink_path(&self, home: Option<&str>) -> (r: Option<String>)
        ensures
            match home {
                Some(h) => r is Some && r->0@ == h@ + config_suffix(*self),
                None => r is None,
            },
    {
        match home {
            Some(h) => {
                let mut p = String::from_str(h);
                match self {
                    ShellType::Noctalia => p.append("/.config/quickshell/noctalia-shell"),
                    ShellType::Illogical => p.append("/.config/quickshell/ii"),
                }
                Some(p)
            },
            None => None,
        }
    }
}

/// One running shell process.
#[derive(Debug, Clone)]
pub struct RunningShellInfo {
    pub shell_type: ShellType,
    pub running_path: String,
    pub pid: u32,
}

/// The word after the first occurrence of `flag` that has a word after it.
pub open spec fn path_arg(ws: Seq<Seq<char>>, flag: Seq<char>) -> Option<Seq<char>>
    decreases ws.len(),
{
    if ws.len() < 2 {
        None
    } else if ws[0] == flag {
        Some(ws[1])
    } else {
        path_arg(ws.drop_first(), flag)
    }
}

/// The first word, when it lies in the package store.
pub open spec fn binary_path(ws: Seq<Seq<char>>) -> Option<Seq<char>> {
    if ws.len() > 0 && has_sub(ws[0], "/nix/store/"@) {
        Some(ws[0])
    } else {
        None
    }
}

/// The shell kind and launch path read from a command line.
pub open spec fn parsed_shell(cmd: Seq<char>) -> Option<(ShellType, Seq<char>)> {
    if has_sub(cmd, "/noctalia-shell"@) && path_arg(words(cmd), "-p"@) is Some {
        Some((ShellType::Noctalia, path_arg(words(cmd), "-p"@)->0))
    } else if (has_sub(cmd, "quickshell/ii"@) || (has_sub(cmd, "-c"@) && has_sub(cmd, "/ii"@)))
        && binary_path(words(cmd)) is Some {
        Some((ShellType::Illogical, binary_path(words(cmd))->0))
    } else {
        None
    }
}

fn path_arg_exec(ws: &Vec<Vec<char>>, flag: &Vec<char>, Ghost(wv): Ghost<Seq<Seq<char>>>) -> (r:
    Option<usize>)
    requires
        ws@.len() == wv.len(),
        forall|i: int| 0 <= i < ws@.len() ==> (#[trigger] ws@[i])@ == wv[i],
    ensures
        match r {
            Some(i) => i + 1 < wv.len() && path_arg(wv, flag@) == Some(wv[i + 1]),
            None => path_arg(wv, flag@) is None,
        },
{
    let mut i: usize = 0;
    assert(wv.subrange(0, wv.len() as int) =~= wv);
    while ws.len() > 1 && i < ws.len() - 1
        invariant
            ws@.len() == wv.len(),
            forall|k: int| 0 <= k < ws@.len() ==> (#[trigger] ws@[k])@ == wv[k],
            i <= wv.len(),
            path_arg(wv, flag@) == path_arg(wv.subrange(i as int, wv.len() as int), flag@),
        decreases ws@.len() - i,
    {
        let ghost rest = wv.subrange(i as int, wv.len() as int);
        let same = ws[i].len() == flag.len() && contains_seq(&ws[i], flag);
        proof {
            assert(rest[0] == wv[i as int]);
            if ws@[i as int]@.len() == flag@.len() {
                if has_sub(ws@[i as int]@, flag@) {
                    let j = choose|j: int| crate::text::occurs_at(ws@[i as int]@, flag@, j);
                    assert(j == 0);
                    assert(ws@[i as int]@.subrange(0, flag@.len() as int) =~= ws@[i as int]@);
                }
                if ws@[i as int]@ == flag@ {
                    assert(flag@.subrange(0, flag@.len() as int) =~= flag@);
                    assert(crate::text::occurs_at(ws@[i as int]@, flag@, 0));
                }
            }
        }
        if same {
            assert(rest[1] == wv[i + 1]);
            return Some(i);
        }
        assert(rest.drop_first() =~= wv.subrange(i + 1, wv.len() as int));
        i = i + 1;
    }
    None
}

/// Extract a path argument from a command line (the word after `flag`).
pub fn extract_path_arg(cmd: &str, flag: &str) -> (r: Option<String>)
    ensures
        match r {
            Some(p) => path_arg(words(cmd@), flag@) == Some(p@),
            None => path_arg(words(cmd@), flag@) is None,
        },
{
    let ws = split_words(&chars_of(cmd));
    assert(words(cmd@).subrange(0, words(cmd@).len() as int) =~= words(cmd@));
    match path_arg_exec(&ws, &chars_of(flag), Ghost(words(cmd@))) {
        Some(i) => {
            let n = ws.len();
            assert(i + 1 < n);
            Some(string_of(&ws[i + 1]))
        },
        None => None,
    }
}

/// Extract the shell binary path: the first word, when it lies in the package store.
pub fn extract_quickshell_binary_path(cmd: &str) -> (r: Option<String>)
    ensures
        match r {
            Some(p) => binary_path(words(cmd@)) == Some(p@),
            None => binary_path(words(cmd@)) is None,
        },
{
    let ws = split_words(&chars_of(cmd));
    if ws.len() > 0 && contains_seq(&ws[0], &chars_of("/nix/store/")) {
        Some(string_of(&ws[0]))
    } else {
        None
    }
}

/// Determine the shell kind and launch path of one command line.
pub fn parse_quickshell_command(pid: u32, cmd: &str) -> (r: Option<RunningShellInfo>)
    ensures
        match r {
            Some(info) => info.pid == pid && parsed_shell(cmd@) == Some(
                (info.shell_type, info.running_path@),
            ),
            None => parsed_shell(cmd@) is None,
        },
{
    let c = chars_of(cmd);
    if contains_seq(&c, &chars_of("/noctalia-shell")) {
        if let Some(path) = extract_path_arg(cmd, "-p") {
            return Some(RunningShellInfo { shell_type: ShellType::Noctalia, running_path: path, pid });
        }
    }
    if contains_seq(&c, &chars_of("quickshell/ii")) || (contains_seq(&c, &chars_of("-c"))
        && contains_seq(&c, &chars_of("/ii"))) {
        if let Some(path) = extract_quickshell_binary_path(cmd) {
            return Some(
                RunningShellInfo { shell_type: ShellType::Illogical, running_path: path, pid },
            );
        }
    }
    None
}

/// Length of the run of characters other than a space at the start of `s`.
pub open spec fn field_len(s: Seq<char>) -> nat
    decreases s.len(),
{
    if s.len() > 0 && s[0] != ' ' {
        1 + field_len(s.drop_first())
    } else {
        0
    }
}

/// A process-listing line `PID COMMAND` read as a shell instance.
pub open spec fn listed_shell(line: Seq<char>) -> Option<(ShellType, Seq<char>, u32)> {
    let k = field_len(line);
    if k < line.len() {
        match parse_u32_spec(line.subrange(0, k as int)) {
            Some(pid) => match parsed_shell(line.subrange(k as int + 1, line.len() as int)) {
                Some(p) => Some((p.0, p.1, pid)),
                None => None,
            },
            None => None,
        }
    } else {
        None
    }
}

/// The shell instances named by a sequence of listing lines, in order.
pub open spec fn listed_shells(lines: Seq<Seq<char>>) -> Seq<(ShellType, Seq<char>, u32)>
    decreases lines.len(),
{
    if lines.len() == 0 {
        Seq::empty()
    } else {
        let before = listed_shells(lines.drop_last());
        match listed_shell(lines.last()) {
            Some(x) => before.push(x),
            None => before,
        }
    }
}

pub open spec fn info_view(i: RunningShellInfo) -> (ShellType, Seq<char>, u32) {
    (i.shell_type, i.running_path@, i.pid)
}

proof fn lemma_field_len_bound(t: Seq<char>)
    ensures
        field_len(t) <= t.len(),
    decreases t.len(),
{
    if t.len() > 0 && t[0] != ' ' {
        lemma_field_len_bound(t.drop_first());
    }
}

fn listed_shell_exec(line: &Vec<char>) -> (r: Option<RunningShellInfo>)
    ensures
        match r {
            Some(info) => listed_shell(line@) == Some(info_view(info)),
            None => listed_shell(line@) is None,
        },
{
    let n = line.len();
    let mut k: usize = 0;
    assert(line@.subrange(0, n as int) =~= line@);
    while k < n && line[k] != ' '
        invariant
            k <= n == line@.len(),
            field_len(line@) == k + field_len(line@.subrange(k as int, n as int)),
        decreases n - k,
    {
        assert(line@.subrange(k as int, n as int).drop_first() =~= line@.subrange(k + 1, n as int));
        k = k + 1;
    }
    proof {
        lemma_field_len_bound(line@);
    }
    if k == n {
        return None;
    }
    let pid = match parse_u32(&slice_chars(line, 0, k)) {
        Some(p) => p,
        None => return None,
    };
    let cmd = string_of(&slice_chars(line, k + 1, n));
    parse_quickshell_command(pid, cmd.as_str())
}

/// The shell instances in the output of a process listing (`pgrep -a`),
/// one `PID COMMAND` line each; lines that name no shell are passed over.
pub fn parse_running_shells(output: &str) -> (r: Vec<RunningShellInfo>)
    ensures
        r@.len() == listed_shells(lines_of(output@)).len(),
        forall|i: int|
            0 <= i < r@.len() ==> info_view(#[trigger] r@[i]) == listed_shells(lines_of(output@))[i],
{
    let ls = split_lines(&chars_of(output));
    let ghost lv = lines_of(output@);
    let mut r: Vec<RunningShellInfo> = Vec::new();
    let mut i: usize = 0;
    while i < ls.len()
        invariant
            ls@.len() == lv.len(),
            lv == lines_of(output@),
            forall|k: int| 0 <= k < ls@.len() ==> (#[trigger] ls@[k])@ == lv[k],
            i <= lv.len(),
            r@.len() == listed_shells(lv.subrange(0, i as int)).len(),
            forall|k: int|
                0 <= k < r@.len() ==> info_view(#[trigger] r@[k]) == listed_shells(
                    lv.subrange(0, i as int),
                )[k],
        decreases lv.len() - i,
    {
        assert(lv.subrange(0, i + 1).drop_last() =~= lv.subrange(0, i as int));
        match listed_shell_exec(&ls[i]) {
            Some(info) => {
                r.push(info);
            },
            None => {},
        }
        i = i + 1;
    }
    assert(lv.subrange(0, lv.len() as int) =~= lv);
    r
}

/// The expected path: the configuration link's target, or for the
/// Illogical shell, whose configuration need not be a link, the location of
/// the shell binary.
pub fn choose_expected_path(shell: ShellType, link_target: Option<String>, binary: Option<String>) -> (r: Option<String>)
    ensures
        r == match link_target {
            Some(t) => Some(t),
            None => if shell == ShellType::Illogical {
                binary
            } else {
                None
            },
        },
{
    match link_target {
        Some(t) => Some(t),
        None => if shell == ShellType::Illogical {
            binary
        } else {
            None
        },
    }
}

/// An instance of kind `kind` launched from `running` is up to date with
/// `expected`: the same path for Noctalia, containment either way for the
/// Illogical shell, whose configuration directory does not track the binary.
pub open spec fn path_ok(kind: ShellType, running: Seq<char>, expected: Seq<char>) -> bool {
    match kind {
        ShellType::Noctalia => running == expected,
        ShellType::Illogical => has_sub(running, expected) || has_sub(expected, running),
    }
}

pub open spec fn info_ok(i: RunningShellInfo, expected: Seq<char>) -> bool {
    path_ok(i.shell_type, i.running_path@, expected)
}

/// Process ids of the stale instances, in order.
pub open spec fn stale_pids(rs: Seq<RunningShellInfo>, expected: Seq<char>) -> Seq<u32>
    decreases rs.len(),
{
    if rs.len() == 0 {
        Seq::empty()
    } else if info_ok(rs.last(), expected) {
        stale_pids(rs.drop_last(), expected)
    } else {
        stale_pids(rs.drop_last(), expected).push(rs.last().pid)
    }
}

/// Number of up-to-date instances.
pub open spec fn fresh_count(rs: Seq<RunningShellInfo>, expected: Seq<char>) -> nat
    decreases rs.len(),
{
    if rs.len() == 0 {
        0
    } else if info_ok(rs.last(), expected) {
        fresh_count(rs.drop_last(), expected) + 1
    } else {
        fresh_count(rs.drop_last(), expected)
    }
}

/// What reconciliation does: terminate the stale instances of `shell`, and
/// launch one if none up to date remains.
#[derive(Debug, Clone)]
pub struct ShellRestart {
    pub shell: ShellType,
    pub kill: Vec<u32>,
    pub launch: bool,
}

/// Whether reconciliation acts on the instances `rs` given the expected
/// path, and if so on which pids and whether it launches.
pub open spec fn planned(rs: Seq<RunningShellInfo>, expected: Option<Seq<char>>) -> Option<
    (ShellType, Seq<u32>, bool),
> {
    if rs.len() == 0 {
        None
    } else {
        match expected {
            None => None,
            Some(e) => if stale_pids(rs, e).len() == 0 {
                None
            } else {
                Some((rs[0].shell_type, stale_pids(rs, e), fresh_count(rs, e) == 0))
            },
        }
    }
}

fn path_ok_exec(kind: ShellType, running: &str, expected: &str) -> (r: bool)
    ensures
        r == path_ok(kind, running@, expected@),
{
    let a = chars_of(running);
    let b = chars_of(expected);
    match kind {
        ShellType::Noctalia => {
            if a.len() != b.len() {
                return false;
            }
            let r = contains_seq(&a, &b);
            proof {
                if r {
                    let j = choose|j: int| crate::text::occurs_at(a@, b@, j);
                    assert(j == 0);
                    assert(a@.subrange(0, b@.len() as int) =~= a@);
                }
                if a@ == b@ {
                    assert(a@.subrange(0, b@.len() as int) =~= a@);
                    assert(crate::text::occurs_at(a@, b@, 0));
                }
            }
            r
        },
        ShellType::Illogical => contains_seq(&a, &b) || contains_seq(&b, &a),
    }
}

/// Decide the reconciliation for the running instances `running` given the
/// expected path after the rebuild (of the first instance's kind). `None`
/// when nothing is running, the expected path is unknown, or every instance
/// is up to date.
pub fn plan_shell_restart(running: &Vec<RunningShellInfo>, expected: Option<&str>) -> (r: Option<
    ShellRestart,
>)
    ensures
        match r {
            Some(p) => planned(running@, opt_view(expected)) == Some((p.shell, p.kill@, p.launch)),
            None => planned(running@, opt_view(expected)) is None,
        },
{
    if running.len() == 0 {
        return None;
    }
    let e = match expected {
        Some(e) => e,
        None => return None,
    };
    let mut kill: Vec<u32> = Vec::new();
    let mut fresh: usize = 0;
    let mut i: usize = 0;
    while i < running.len()
        invariant
            i <= running@.len(),
            fresh <= i,
            kill@ == stale_pids(running@.subrange(0, i as int), e@),
            fresh == fresh_count(running@.subrange(0, i as int), e@),
        decreases running@.len() - i,
    {
        assert(running@.subrange(0, i + 1).drop_last() =~= running@.subrange(0, i as int));
        if path_ok_exec(running[i].shell_type, running[i].running_path.as_str(), e) {
            fresh = fresh + 1;
        } else {
            kill.push(running[i].pid);
        }
        i = i + 1;
    }
    assert(running@.subrange(0, running@.len() as int) =~= running@);
    if kill.len() == 0 {
        return None;
    }
    Some(ShellRestart { shell: running[0].shell_type, kill, launch: fresh == 0 })
}

pub open spec fn opt_view(o: Option<&str>) -> Option<Seq<char>> {
    match o {
        Some(s) => Some(s@),
        None => None,
    }
}

/// The words of `ws` joined by single spaces.
pub open spec fn joined(ws: Seq<Seq<char>>) -> Seq<char>
    decreases ws.len(),
{
    if ws.len() == 0 {
        Seq::empty()
    } else if ws.len() == 1 {
        ws[0]
    } else {
        joined(ws.drop_last()) + " "@ + ws.last()
    }
}

impl ShellRestart {
    /// The narration line announcing the restart or the cleanup.
    pub fn notice(&self) -> (r: String)
        ensures
            r@ == if self.launch {
                "  Restarting "@ + shell_name(self.shell) + " shell (store path changed)..."@
            } else {
                "  Cleaning up "@ + decimal(self.kill@.len()) + " stale "@ + shell_name(self.shell)
                    + " shell process(es)..."@
            },
    {
        if self.launch {
            let mut s = String::from_str("  Restarting ");
            s.append(self.shell.name());
            s.append(" shell (store path changed)...");
            s
        } else {
            let mut s = String::from_str("  Cleaning up ");
            let n = decimal_string(self.kill.len() as u64);
            s.append(n.as_str());
            s.append(" stale ");
            s.append(self.shell.name());
            s.append(" shell process(es)...");
            s
        }
    }

    /// The outcome as reported after the rebuild: the shell's name for a
    /// fresh restart, with ` (cleanup)` when stale instances were only removed.
    pub fn report(&self) -> (r: String)
        ensures
            r@ == if self.launch {
                shell_name(self.shell)
            } else {
                shell_name(self.shell) + " (cleanup)"@
            },
    {
        let mut s = String::from_str(self.shell.name());
        if !self.launch {
            s.append(" (cleanup)");
        }
        s
    }
}

pub open spec fn hyprctl_program() -> Seq<char> {
    "hyprctl"@
}

/// The program and arguments that launch `shell`: through the compositor's
/// `dispatch exec` when it is available, else detached with `nohup`.
pub fn launch_command(shell: ShellType, hyprctl_available: bool) -> (r: (String, Vec<String>))
    ensures
        hyprctl_available ==> r.0@ == hyprctl_program() && r.1@.len() == 3 && r.1@[0]@
            == "dispatch"@ && r.1@[1]@ == "exec"@ && r.1@[2]@ == joined(
            seq![restart_program(shell)] + restart_args(shell),
        ),
        !hyprctl_available ==> r.0@ == "nohup"@ && r.1@.len() == 1 + restart_args(shell).len()
            && r.1@[0]@ == restart_program(shell) && forall|i: int|
            0 <= i < restart_args(shell).len() ==> (#[trigger] r.1@[i + 1])@ == restart_args(
                shell,
            )[i],
{
    let (cmd, args) = shell.restart_command();
    let ghost ws = seq![restart_program(shell)] + restart_args(shell);
    if hyprctl_available {
        let mut line = String::from_str(cmd);
        let mut i: usize = 0;
        assert(ws.subrange(0, 1) =~= seq![ws[0]]);
        while i < args.len()
            invariant
                i <= args@.len() == restart_args(shell).len(),
                ws == seq![restart_program(shell)] + restart_args(shell),
                forall|k: int| 0 <= k < args@.len() ==> (#[trigger] args@[k])@ == restart_args(shell)[k],
                line@ == joined(ws.subrange(0, i + 1)),
            decreases args@.len() - i,
        {
            line.append(" ");
            line.append(args[i]);
            assert(ws.subrange(0, i + 2).drop_last() =~= ws.subrange(0, i + 1));
            i = i + 1;
        }
        assert(ws.subrange(0, args@.len() as int + 1) =~= ws);
        let mut v: Vec<String> = Vec::new();
        v.push(String::from_str("dispatch"));
        v.push(String::from_str("exec"));
        v.push(line);
        (String::from_str("hyprctl"), v)
    } else {
        let mut v: Vec<String> = Vec::new();
        v.push(String::from_str(cmd));
        let mut i: usize = 0;
        while i < args.len()
            invariant
                i <= args@.len() == restart_args(shell).len(),
                v@.len() == i + 1,
                v@[0]@ == restart_program(shell),
                forall|k: int| 0 <= k < args@.len() ==> (#[trigger] args@[k])@ == restart_args(shell)[k],
                forall|k: int| 0 <= k < i ==> (#[trigger] v@[k + 1])@ == restart_args(shell)[k],
            decreases args@.len() - i,
        {
            v.push(String::from_str(args[i]));
            i = i + 1;
        }
        (String::from_str("nohup"), v)
    }
}

/// The instances still running after a pass that carried out `plan`
/// (a launched instance aside): those whose pid was not terminated.
pub open spec fn survivors(rs: Seq<RunningShellInfo>, plan: Option<(ShellType, Seq<u32>, bool)>) -> Seq<
    RunningShellInfo,
> {
    match plan {
        None => rs,
        Some(p) => rs.filter(|i: RunningShellInfo| !p.1.contains(i.pid)),
    }
}

proof fn lemma_all_ok_no_stale(rs: Seq<RunningShellInfo>, e: Seq<char>)
    requires
        forall|i: int| 0 <= i < rs.len() ==> info_ok(#[trigger] rs[i], e),
    ensures
        stale_pids(rs, e).len() == 0,
        fresh_count(rs, e) == rs.len(),
    decreases rs.len(),
{
    if rs.len() > 0 {
        assert(info_ok(rs[rs.len() - 1], e));
        lemma_all_ok_no_stale(rs.drop_last(), e);
    }
}

/// When every running instance is already up to date, a reconciliation
/// pass terminates nothing and launches nothing, so the pass after it sees
/// the same instances and again does nothing.
pub proof fn lemma_reconcile_idempotent(rs: Seq<RunningShellInfo>, expected: Seq<char>)
    requires
        forall|i: int| 0 <= i < rs.len() ==> info_ok(#[trigger] rs[i], expected),
    ensures
        planned(rs, Some(expected)) is None,
        survivors(rs, planned(rs, Some(expected))) == rs,
        planned(survivors(rs, planned(rs, Some(expected))), Some(expected)) is None,
{
    lemma_all_ok_no_stale(rs, expected);
}

/// With two instances, one up to date and one stale, reconciliation
/// terminates exactly the stale one and launches nothing.
pub proof fn lemma_reconcile_one_stale(rs: Seq<RunningShellInfo>, expected: Seq<char>, stale: int)
    requires
        rs.len() == 2,
        0 <= stale < 2,
        !info_ok(rs[stale], expected),
        info_ok(rs[1 - stale], expected),
    ensures
        planned(rs, Some(expected)) == Some((rs[0].shell_type, seq![rs[stale].pid], false)),
{
    let first = rs.drop_last();
    assert(first.drop_last().len() == 0);
    assert(first.last() == rs[0]);
    assert(rs.last() == rs[1]);
    assert(stale_pids(first.drop_last(), expected) == Seq::<u32>::empty());
    assert(fresh_count(first.drop_last(), expected) == 0);
    assert(fresh_count(first, expected) + (if info_ok(rs[1], expected) { 1nat } else { 0nat })
        == fresh_count(rs, expected));
    assert(fresh_count(rs, expected) == 1);
    if stale == 0 {
        assert(stale_pids(first, expected) =~= seq![rs[0].pid]);
        assert(stale_pids(rs, expected) =~= seq![rs[0].pid]);
    } else {
        assert(stale_pids(first, expected) =~= Seq::<u32>::empty());
        assert(stale_pids(rs, expected) =~= seq![rs[1].pid]);
    }
}

} // verus!
