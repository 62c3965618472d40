//! Reading the output of version-control commands.
use vstd::prelude::*;
use crate::summary::lines_view;
use crate::text::{chars_of, lines_of, slice_chars, split_lines, starts_with, string_of, trim, trim_seq};

verus! {

/// A porcelain status line `XY path` without its status columns.
pub open spec fn changed_path(l: Seq<char>) -> Seq<char> {
    if l.len() > 3 {
        l.subrange(3, l.len() as int)
    } else {
        l
    }
}

/// The changed paths listed by `status --porcelain`, blank lines left out.
pub open spec fn changed_paths(ls: Seq<Seq<char>>) -> Seq<Seq<char>>
    decreases ls.len(),
{
    if ls.len() == 0 {
        Seq::empty()
    } else if ls.last().len() == 0 {
        changed_paths(ls.drop_last())
    } else {
        changed_paths(ls.drop_last()).push(changed_path(ls.last()))
    }
}

/// The files with local changes, from the output of `git status --porcelain`.
pub fn parse_local_changes(stdout: &str) -> (r: Vec<String>)
    ensures
        lines_view(r@) == changed_paths(lines_of(stdout@)),
{
    let ls = split_lines(&chars_of(stdout));
    let ghost lv = lines_of(stdout@);
    let mut r: Vec<String> = Vec::new();
    let mut i: usize = 0;
    while i < ls.len()
        invariant
            ls@.len() == lv.len(),
            forall|k: int| 0 <= k < ls@.len() ==> (#[trigger] ls@[k])@ == lv[k],
            i <= lv.len(),
            lines_view(r@) == changed_paths(lv.subrange(0, i as int)),
        decreases lv.len() - i,
    {
        assert(lv.subrange(0, i + 1).drop_last() =~= lv.subrange(0, i as int));
        let l = &ls[i];
        if l.len() > 0 {
            let p = if l.len() > 3 {
                string_of(&slice_chars(l, 3, l.len()))
            } else {
                string_of(l)
            };
            proof {
                if l@.len() <= 3 {
                    assert(l@.subrange(0, l@.len() as int) =~= l@);
                }
            }
            let ghost prev = r@;
            r.push(p);
            assert(lines_view(r@) =~= lines_view(prev).push(p@));
        }
        i = i + 1;
    }
    assert(lv.subrange(0, lv.len() as int) =~= lv);
    r
}

pub open spec fn remote_head_prefix() -> Seq<char> {
    "refs/remotes/origin/"@
}

/// The branch named by the output of `symbolic-ref refs/remotes/origin/HEAD`.
pub open spec fn head_branch(ok: bool, out: Seq<char>) -> Option<Seq<char>> {
    if ok && starts_with(trim(out), remote_head_prefix()) {
        Some(trim(out).subrange(remote_head_prefix().len() as int, trim(out).len() as int))
    } else {
        None
    }
}

/// The branch the remote's HEAD points at, if the command succeeded and
/// printed a remote branch reference.
pub fn branch_from_remote_head(ok: bool, out: &str) -> (r: Option<String>)
    ensures
        match r {
            Some(b) => head_branch(ok, out@) == Some(b@),
            None => head_branch(ok, out@) is None,
        },
{
    if !ok {
        return None;
    }
    let t = trim_seq(&chars_of(out));
    let p = chars_of("refs/remotes/origin/");
    if crate::text::starts_with_seq(&t, &p) {
        Some(string_of(&slice_chars(&t, p.len(), t.len())))
    } else {
        None
    }
}

/// The default branch: the remote HEAD's branch, else `main` when
/// `origin/main` exists, else `master`.
pub fn default_branch(from_head: Option<String>, main_exists: bool) -> (r: String)
    ensures
        r@ == match from_head {
            Some(b) => b@,
            None => if main_exists {
                "main"@
            } else {
                "master"@
            },
        },
{
    match from_head {
        Some(b) => b,
        None => if main_exists {
            String::from_str("main")
        } else {
            String::from_str("master")
        },
    }
}

pub open spec fn manual_pop_line() -> Seq<char> {
    "    Run 'git stash pop' manually to restore"@
}

pub open spec fn indented(ls: Seq<Seq<char>>) -> Seq<Seq<char>>
    decreases ls.len(),
{
    if ls.len() == 0 {
        Seq::empty()
    } else {
        indented(ls.drop_last()).push("    "@ + ls.last())
    }
}

/// The report on restoring stashed changes after a successful update, from
/// the result of `stash pop` (its success, output and error output) or the
/// error that kept it from running.
pub open spec fn restore_report(pop: Result<(bool, Seq<char>, Seq<char>), Seq<char>>) -> Seq<Seq<char>> {
    seq![""@, "Restoring stashed changes..."@] + match pop {
        Ok((ok, stdout, stderr)) => (if ok {
            seq!["  ✓ Stashed changes restored successfully"@]
        } else {
            seq!["  ✗ Failed to restore stashed changes"@] + (if stderr.len() > 0 {
                seq!["    "@ + trim(stderr)]
            } else {
                Seq::empty()
            }) + seq![manual_pop_line()]
        }) + (if stdout.len() > 0 {
            indented(lines_of(stdout))
        } else {
            Seq::empty()
        }),
        Err(e) => seq!["  ✗ Error restoring stash: "@ + e, manual_pop_line()],
    }
}

pub open spec fn pop_view(pop: Result<(bool, String, String), String>) -> Result<(bool, Seq<char>, Seq<char>), Seq<char>> {
    match pop {
        Ok((ok, a, b)) => Ok((ok, a@, b@)),
        Err(e) => Err(e@),
    }
}

fn push_text(out: &mut Vec<String>, s: String)
    ensures
        lines_view(final(out)@) == lines_view(old(out)@).push(s@),
{
    out.push(s);
    assert(lines_view(out@) =~= lines_view(old(out)@).push(s@));
}

/// The lines reporting how restoring stashed changes went.
pub fn stash_restore_lines(pop: Result<(bool, String, String), String>) -> (r: Vec<String>)
    ensures
        lines_view(r@) == restore_report(pop_view(pop)),
{
    let ghost pv = pop_view(pop);
    let mut out: Vec<String> = Vec::new();
    push_text(&mut out, String::from_str(""));
    push_text(&mut out, String::from_str("Restoring stashed changes..."));
    let ghost head = lines_view(out@);
    match pop {
        Ok((ok, stdout, stderr)) => {
            if ok {
                push_text(&mut out, String::from_str("  ✓ Stashed changes restored successfully"));
            } else {
                push_text(&mut out, String::from_str("  ✗ Failed to restore stashed changes"));
                if stderr.as_str().unicode_len() > 0 {
                    let mut l = String::from_str("    ");
                    let t = string_of(&trim_seq(&chars_of(stderr.as_str())));
                    l.append(t.as_str());
                    push_text(&mut out, l);
                }
                push_text(&mut out, String::from_str("    Run 'git stash pop' manually to restore"));
            }
            let ghost mid = lines_view(out@);
            if stdout.as_str().unicode_len() > 0 {
                let ls = split_lines(&chars_of(stdout.as_str()));
                let ghost lv = lines_of(stdout@);
                let mut i: usize = 0;
                while i < ls.len()
                    invariant
                        ls@.len() == lv.len(),
                        forall|k: int| 0 <= k < ls@.len() ==> (#[trigger] ls@[k])@ == lv[k],
                        i <= lv.len(),
                        lines_view(out@) == mid + indented(lv.subrange(0, i as int)),
                    decreases lv.len() - i,
                {
                    assert(lv.subrange(0, i + 1).drop_last() =~= lv.subrange(0, i as int));
                    let mut l = String::from_str("    ");
                    let piece = string_of(&ls[i]);
                    l.append(piece.as_str());
                    push_text(&mut out, l);
                    assert(lines_view(out@) =~= mid + indented(lv.subrange(0, i + 1)));
                    i = i + 1;
                }
                assert(lv.subrange(0, lv.len() as int) =~= lv);
            }
            assert(lines_view(out@) =~= restore_report(pv));
        },
        Err(e) => {
            let mut l = String::from_str("  ✗ Error restoring stash: ");
            l.append(e.as_str());
            push_text(&mut out, l);
            push_text(&mut out, String::from_str("    Run 'git stash pop' manually to restore"));
            assert(lines_view(out@) =~= restore_report(pv));
        },
    }
    out
}

} // verus!
