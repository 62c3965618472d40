//! The record accumulated across the update stages, and its rendering as
//! narration lines.
use vstd::prelude::*;
use crate::text::{chars_of, decimal, decimal_string, slice_chars, string_of};

verus! {

/// One upstream commit of a changed dependency.
#[derive(Debug, Clone)]
pub struct CommitInfo {
    pub hash: String,
    pub message: String,
}

/// A dependency whose locked revision changed.
#[derive(Debug, Clone)]
pub struct FlakeChange {
    pub name: String,
    pub old_rev: String,
    pub new_rev: String,
    /// The commits shown, up to a display cap.
    pub commits: Vec<CommitInfo>,
    pub total_commits: usize,
    pub compare_url: Option<String>,
}

/// What one update run found, filled in stage by stage.
#[derive(Debug, Clone)]
pub struct UpdateSummary {
    pub flake_changes: Vec<FlakeChange>,
    /// Package name, old version, new version.
    pub package_changes: Vec<(String, String, String)>,
    pub closure_summary: Option<String>,
    pub rebuild_failed: bool,
    pub rebuild_skipped: bool,
    pub reboot_reasons: Vec<String>,
    pub agent_old: Option<String>,
    pub agent_new: Option<String>,
    pub codex_old: Option<String>,
    pub codex_new: Option<String>,
    pub browser_status: String,
}

impl UpdateSummary {
    /// Nothing is recorded.
    pub open spec fn is_fresh(&self) -> bool {
        &&& self.flake_changes@.len() == 0
        &&& self.package_changes@.len() == 0
        &&& self.closure_summary is None
        &&& !self.rebuild_failed
        &&& !self.rebuild_skipped
        &&& self.reboot_reasons@.len() == 0
        &&& self.agent_old is None
        &&& self.agent_new is None
        &&& self.codex_old is None
        &&& self.codex_new is None
        &&& self.browser_status@.len() == 0
    }

    /// A summary with nothing recorded yet.
    pub fn new() -> (r: UpdateSummary)
        ensures
            r.is_fresh(),
    {
        UpdateSummary {
            flake_changes: Vec::new(),
            package_changes: Vec::new(),
            closure_summary: None,
            rebuild_failed: false,
            rebuild_skipped: false,
            reboot_reasons: Vec::new(),
            agent_old: None,
            agent_new: None,
            codex_old: None,
            codex_new: None,
            browser_status: String::new(),
        }
    }
}

pub open spec fn lines_view(v: Seq<String>) -> Seq<Seq<char>> {
    v.map_values(|l: String| l@)
}

pub open spec fn opt_view(o: Option<String>) -> Option<Seq<char>> {
    match o {
        Some(s) => Some(s@),
        None => None,
    }
}

pub open spec fn or_empty(o: Option<String>) -> Seq<char> {
    match o {
        Some(s) => s@,
        None => Seq::empty(),
    }
}

/// At most the first `n` characters of `s`.
pub open spec fn prefix(s: Seq<char>, n: nat) -> Seq<char> {
    if s.len() > n {
        s.subrange(0, n as int)
    } else {
        s
    }
}

pub open spec fn commit_lines(cs: Seq<CommitInfo>) -> Seq<Seq<char>>
    decreases cs.len(),
{
    if cs.len() == 0 {
        Seq::empty()
    } else {
        commit_lines(cs.drop_last()).push("    "@ + cs.last().hash@ + " "@ + cs.last().message@)
    }
}

/// The lines for one changed dependency: its commits when any were found,
/// with a link when more exist than are shown; else the revision change.
pub open spec fn change_lines(c: FlakeChange) -> Seq<Seq<char>> {
    if c.total_commits > 0 {
        seq![""@, "  "@ + c.name@ + " ("@ + decimal(c.total_commits as nat) + " commit"@ + (if c.total_commits
            == 1 {
            ""@
        } else {
            "s"@
        }) + "):"@] + commit_lines(c.commits@) + (if c.total_commits > c.commits@.len()
            && c.compare_url is Some {
            seq![
                "    ... and "@ + decimal((c.total_commits - c.commits@.len()) as nat) + " more → "@
                    + c.compare_url->0@,
            ]
        } else {
            Seq::empty()
        })
    } else {
        seq![""@, "  "@ + c.name@ + ": "@ + prefix(c.old_rev@, 7) + " → "@ + prefix(c.new_rev@, 7)]
            + (if c.compare_url is Some {
            seq!["    → "@ + c.compare_url->0@]
        } else {
            Seq::empty()
        })
    }
}

pub open spec fn changes_lines(cs: Seq<FlakeChange>) -> Seq<Seq<char>>
    decreases cs.len(),
{
    if cs.len() == 0 {
        Seq::empty()
    } else {
        changes_lines(cs.drop_last()) + change_lines(cs.last())
    }
}

pub open spec fn package_lines(ps: Seq<(String, String, String)>) -> Seq<Seq<char>>
    decreases ps.len(),
{
    if ps.len() == 0 {
        Seq::empty()
    } else {
        package_lines(ps.drop_last()).push(
            "    "@ + ps.last().0@ + ": "@ + ps.last().1@ + " → "@ + ps.last().2@,
        )
    }
}

/// A tool counts as updated when both versions are known and they differ.
pub open spec fn tool_updated(old: Option<String>, new: Option<String>) -> bool {
    old is Some && new is Some && opt_view(old) != opt_view(new)
}

pub open spec fn rule_line() -> Seq<char> {
    "══════════════════════════════════════════════"@
}

pub open spec fn header_lines() -> Seq<Seq<char>> {
    seq![
        ""@,
        "╔══════════════════════════════════════════════╗"@,
        "║            Update Summary                    ║"@,
        "╚══════════════════════════════════════════════╝"@,
    ]
}

pub open spec fn flake_section(s: UpdateSummary) -> Seq<Seq<char>> {
    if s.flake_changes@.len() == 0 {
        Seq::empty()
    } else {
        seq![""@, "  Flake inputs updated:"@] + changes_lines(s.flake_changes@)
    }
}

pub open spec fn tools_section(s: UpdateSummary) -> Seq<Seq<char>> {
    let cu = tool_updated(s.agent_old, s.agent_new);
    let xu = tool_updated(s.codex_old, s.codex_new);
    if cu || xu {
        seq![""@, "  CLI tools updated:"@] + (if cu {
            seq!["    Agent CLI: "@ + or_empty(s.agent_old) + " → "@ + or_empty(s.agent_new)]
        } else {
            Seq::empty()
        }) + (if xu {
            seq!["    Codex CLI: "@ + or_empty(s.codex_old) + " → "@ + or_empty(s.codex_new)]
        } else {
            Seq::empty()
        })
    } else {
        Seq::empty()
    }
}

pub open spec fn packages_section(s: UpdateSummary) -> Seq<Seq<char>> {
    if s.package_changes@.len() == 0 {
        Seq::empty()
    } else {
        seq![""@, "  Packages changed:"@] + package_lines(s.package_changes@)
    }
}

pub open spec fn closure_section(s: UpdateSummary) -> Seq<Seq<char>> {
    match s.closure_summary {
        Some(c) => seq![""@, "  Closure: "@ + c@],
        None => Seq::empty(),
    }
}

pub open spec fn status_section(s: UpdateSummary) -> Seq<Seq<char>> {
    seq![""@, "  ─────────────────────────────────────────"@, ""@] + (if s.rebuild_failed {
        seq!["  System:      Rebuild failed"@]
    } else if s.rebuild_skipped {
        seq!["  System:      Already up to date"@]
    } else {
        Seq::empty()
    }) + (if s.agent_old is Some && !tool_updated(s.agent_old, s.agent_new) {
        seq!["  Agent CLI: "@ + or_empty(s.agent_new)]
    } else {
        Seq::empty()
    }) + (if s.codex_old is Some && !tool_updated(s.codex_old, s.codex_new) {
        seq!["  Codex CLI:   "@ + or_empty(s.codex_new)]
    } else {
        Seq::empty()
    }) + (if s.browser_status@.len() > 0 {
        seq!["  Browser:     "@ + s.browser_status@]
    } else {
        Seq::empty()
    }) + seq![""@, rule_line()]
}

/// The narration lines of the final summary, in order.
pub open spec fn summary_lines(s: UpdateSummary) -> Seq<Seq<char>> {
    header_lines() + flake_section(s) + tools_section(s) + packages_section(s) + closure_section(s)
        + status_section(s)
}

fn push_line(out: &mut Vec<String>, line: String)
    ensures
        lines_view(final(out)@) == lines_view(old(out)@).push(line@),
{
    out.push(line);
    assert(lines_view(out@) =~= lines_view(old(out)@).push(line@));
}

fn push_str(out: &mut Vec<String>, line: &str)
    ensures
        lines_view(final(out)@) == lines_view(old(out)@).push(line@),
{
    push_line(out, String::from_str(line));
}

fn first_chars(s: &str, n: usize) -> (r: String)
    ensures
        r@ == prefix(s@, n as nat),
{
    let c = chars_of(s);
    if c.len() > n {
        string_of(&slice_chars(&c, 0, n))
    } else {
        assert(c@.subrange(0, c@.len() as int) =~= c@);
        string_of(&c)
    }
}

fn str_eq(a: &String, b: &String) -> (r: bool)
    ensures
        r == (a@ == b@),
{
    let x = chars_of(a.as_str());
    let y = chars_of(b.as_str());
    if x.len() != y.len() {
        return false;
    }
    let mut i: usize = 0;
    while i < x.len()
        invariant
            x@ == a@,
            y@ == b@,
            x@.len() == y@.len(),
            i <= x@.len(),
            forall|j: int| 0 <= j < i ==> x@[j] == y@[j],
        decreases x@.len() - i,
    {
        if x[i] != y[i] {
            assert(x@[i as int] != y@[i as int]);
            return false;
        }
        i = i + 1;
    }
    assert(x@ =~= y@);
    true
}

fn tool_updated_exec(old: &Option<String>, new: &Option<String>) -> (r: bool)
    ensures
        r == tool_updated(*old, *new),
{
    match (old, new) {
        (Some(a), Some(b)) => !str_eq(a, b),
        _ => false,
    }
}

fn or_empty_exec(o: &Option<String>) -> (r: String)
    ensures
        r@ == or_empty(*o),
{
    match o {
        Some(s) => s.clone(),
        None => String::new(),
    }
}

fn push_change(out: &mut Vec<String>, c: &FlakeChange)
    ensures
        lines_view(final(out)@) == lines_view(old(out)@) + change_lines(*c),
{
    let ghost start = lines_view(out@);
    push_str(out, "");
    if c.total_commits > 0 {
        let mut head = String::from_str("  ");
        head.append(c.name.as_str());
        head.append(" (");
        let n = decimal_string(c.total_commits as u64);
        head.append(n.as_str());
        head.append(" commit");
        if c.total_commits == 1 {
            head.append("");
        } else {
            head.append("s");
        }
        head.append("):");
        push_line(out, head);
        let ghost mid = lines_view(out@);
        let mut i: usize = 0;
        while i < c.commits.len()
            invariant
                i <= c.commits@.len(),
                lines_view(out@) == mid + commit_lines(c.commits@.subrange(0, i as int)),
            decreases c.commits@.len() - i,
        {
            let mut l = String::from_str("    ");
            l.append(c.commits[i].hash.as_str());
            l.append(" ");
            l.append(c.commits[i].message.as_str());
            proof {
                assert(c.commits@.subrange(0, i + 1).drop_last() =~= c.commits@.subrange(0, i as int));
                assert(c.commits@.subrange(0, i + 1).last() == c.commits@[i as int]);
            }
            push_line(out, l);
            assert(lines_view(out@) =~= mid + commit_lines(c.commits@.subrange(0, i + 1)));
            i = i + 1;
        }
        assert(c.commits@.subrange(0, c.commits@.len() as int) =~= c.commits@);
        let ghost after_commits = lines_view(out@);
        if c.total_commits > c.commits.len() {
            if let Some(url) = &c.compare_url {
                let mut l = String::from_str("    ... and ");
                let m = decimal_string((c.total_commits - c.commits.len()) as u64);
                l.append(m.as_str());
                l.append(" more → ");
                l.append(url.as_str());
                push_line(out, l);
            }
        }
        assert(lines_view(out@) =~= start + change_lines(*c));
    } else {
        let mut l = String::from_str("  ");
        l.append(c.name.as_str());
        l.append(": ");
        let a = first_chars(c.old_rev.as_str(), 7);
        l.append(a.as_str());
        l.append(" → ");
        let b = first_chars(c.new_rev.as_str(), 7);
        l.append(b.as_str());
        push_line(out, l);
        if let Some(url) = &c.compare_url {
            let mut u = String::from_str("    → ");
            u.append(url.as_str());
            push_line(out, u);
        }
        assert(lines_view(out@) =~= start + change_lines(*c));
    }
}

fn push_flake_section(out: &mut Vec<String>, summary: &UpdateSummary)
    ensures
        lines_view(final(out)@) == lines_view(old(out)@) + flake_section(*summary),
{
    let ghost s0 = lines_view(out@);
    if summary.flake_changes.len() > 0 {
        push_str(out, "");
        push_str(out, "  Flake inputs updated:");
        let ghost m = lines_view(out@);
        let mut i: usize = 0;
        while i < summary.flake_changes.len()
            invariant
                i <= summary.flake_changes@.len(),
                lines_view(out@) == m + changes_lines(summary.flake_changes@.subrange(0, i as int)),
            decreases summary.flake_changes@.len() - i,
        {
            proof {
                let sub = summary.flake_changes@.subrange(0, i + 1);
                assert(sub.drop_last() =~= summary.flake_changes@.subrange(0, i as int));
                assert(sub.last() == summary.flake_changes@[i as int]);
            }
            push_change(out, &summary.flake_changes[i]);
            assert(lines_view(out@) =~= m + changes_lines(summary.flake_changes@.subrange(0, i + 1)));
            i = i + 1;
        }
        assert(summary.flake_changes@.subrange(0, summary.flake_changes@.len() as int)
            =~= summary.flake_changes@);
    }
    assert(lines_view(out@) =~= s0 + flake_section(*summary));
}

fn push_tools_section(out: &mut Vec<String>, summary: &UpdateSummary)
    ensures
        lines_view(final(out)@) == lines_view(old(out)@) + tools_section(*summary),
{
    let ghost s1 = lines_view(out@);
    let cu = tool_updated_exec(&summary.agent_old, &summary.agent_new);
    let xu = tool_updated_exec(&summary.codex_old, &summary.codex_new);
    if cu || xu {
        push_str(out, "");
        push_str(out, "  CLI tools updated:");
        if cu {
            let mut l = String::from_str("    Agent CLI: ");
            let a = or_empty_exec(&summary.agent_old);
            l.append(a.as_str());
            l.append(" → ");
            let b = or_empty_exec(&summary.agent_new);
            l.append(b.as_str());
            push_line(out, l);
        }
        if xu {
            let mut l = String::from_str("    Codex CLI: ");
            let a = or_empty_exec(&summary.codex_old);
            l.append(a.as_str());
            l.append(" → ");
            let b = or_empty_exec(&summary.codex_new);
            l.append(b.as_str());
            push_line(out, l);
        }
    }
    assert(lines_view(out@) =~= s1 + tools_section(*summary));
}

fn push_packages_section(out: &mut Vec<String>, summary: &UpdateSummary)
    ensures
        lines_view(final(out)@) == lines_view(old(out)@) + packages_section(*summary),
{
    let ghost s2 = lines_view(out@);
    if summary.package_changes.len() > 0 {
        push_str(out, "");
        push_str(out, "  Packages changed:");
        let ghost m = lines_view(out@);
        let mut i: usize = 0;
        while i < summary.package_changes.len()
            invariant
                i <= summary.package_changes@.len(),
                lines_view(out@) == m + package_lines(summary.package_changes@.subrange(0, i as int)),
            decreases summary.package_changes@.len() - i,
        {
            let p = &summary.package_changes[i];
            let mut l = String::from_str("    ");
            l.append(p.0.as_str());
            l.append(": ");
            l.append(p.1.as_str());
            l.append(" → ");
            l.append(p.2.as_str());
            proof {
                let sub = summary.package_changes@.subrange(0, i + 1);
                assert(sub.drop_last() =~= summary.package_changes@.subrange(0, i as int));
                assert(sub.last() == summary.package_changes@[i as int]);
            }
            push_line(out, l);
            assert(lines_view(out@) =~= m + package_lines(summary.package_changes@.subrange(0, i + 1)));
            i = i + 1;
        }
        assert(summary.package_changes@.subrange(0, summary.package_changes@.len() as int)
            =~= summary.package_changes@);
    }
    assert(lines_view(out@) =~= s2 + packages_section(*summary));
}

fn push_closure_section(out: &mut Vec<String>, summary: &UpdateSummary)
    ensures
        lines_view(final(out)@) == lines_view(old(out)@) + closure_section(*summary),
{
    let ghost s3 = lines_view(out@);
    if let Some(c) = &summary.closure_summary {
        push_str(out, "");
        let mut l = String::from_str("  Closure: ");
        l.append(c.as_str());
        push_line(out, l);
    }
    assert(lines_view(out@) =~= s3 + closure_section(*summary));
}

fn push_status_section(out: &mut Vec<String>, summary: &UpdateSummary)
    ensures
        lines_view(final(out)@) == lines_view(old(out)@) + status_section(*summary),
{
    let ghost s4 = lines_view(out@);
    let cu = tool_updated_exec(&summary.agent_old, &summary.agent_new);
    let xu = tool_updated_exec(&summary.codex_old, &summary.codex_new);
    push_str(out, "");
    push_str(out, "  ─────────────────────────────────────────");
    push_str(out, "");
    if summary.rebuild_failed {
        push_str(out, "  System:      Rebuild failed");
    } else if summary.rebuild_skipped {
        push_str(out, "  System:      Already up to date");
    }
    if summary.agent_old.is_some() && !cu {
        let mut l = String::from_str("  Agent CLI: ");
        let b = or_empty_exec(&summary.agent_new);
        l.append(b.as_str());
        push_line(out, l);
    }
    if summary.codex_old.is_some() && !xu {
        let mut l = String::from_str("  Codex CLI:   ");
        let b = or_empty_exec(&summary.codex_new);
        l.append(b.as_str());
        push_line(out, l);
    }
    if summary.browser_status.as_str().unicode_len() > 0 {
        let mut l = String::from_str("  Browser:     ");
        l.append(summary.browser_status.as_str());
        push_line(out, l);
    }
    push_str(out, "");
    push_str(out, "══════════════════════════════════════════════");
    assert(lines_view(out@) =~= s4 + status_section(*summary));
}

/// Render the summary of an update run as narration lines.
pub fn output_summary(summary: &UpdateSummary) -> (r: Vec<String>)
    ensures
        lines_view(r@) == summary_lines(*summary),
{
    let mut out: Vec<String> = Vec::new();
    push_str(&mut out, "");
    push_str(&mut out, "╔══════════════════════════════════════════════╗");
    push_str(&mut out, "║            Update Summary                    ║");
    push_str(&mut out, "╚══════════════════════════════════════════════╝");
    assert(lines_view(out@) =~= header_lines());
    push_flake_section(&mut out, summary);
    push_tools_section(&mut out, summary);
    push_packages_section(&mut out, summary);
    push_closure_section(&mut out, summary);
    push_status_section(&mut out, summary);
    out
}

} // verus!
