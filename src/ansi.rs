//! Removal of terminal control sequences (`ESC [ params letter`) from output lines.
use vstd::prelude::*;

verus! {

pub open spec fn is_csi_param(c: char) -> bool {
    ('0' <= c && c <= '9') || c == ';'
}

pub open spec fn is_csi_final(c: char) -> bool {
    ('a' <= c && c <= 'z') || ('A' <= c && c <= 'Z')
}

/// Length of the run of parameter characters at the start of `t`.
pub open spec fn param_run(t: Seq<char>) -> nat
    decreases t.len(),
{
    if t.len() > 0 && is_csi_param(t[0]) {
        1 + param_run(t.drop_first())
    } else {
        0
    }
}

/// Length of the control sequence `ESC [ [0-9;]* [a-zA-Z]` that starts `s`, if one does.
pub open spec fn csi_len(s: Seq<char>) -> Option<nat> {
    if s.len() >= 2 && s[0] == '\u{1b}' && s[1] == '[' {
        let k = param_run(s.subrange(2, s.len() as int));
        if 2 + k < s.len() && is_csi_final(s[2 + k as int]) {
            Some(k + 3)
        } else {
            None
        }
    } else {
        None
    }
}

/// `s` with every control sequence removed, scanning left to right and
/// resuming after each removed sequence.
pub open spec fn strip_csi(s: Seq<char>) -> Seq<char>
    decreases s.len(),
{
    if s.len() == 0 {
        s
    } else {
        match csi_len(s) {
            Some(n) => if 0 < n <= s.len() {
                strip_csi(s.subrange(n as int, s.len() as int))
            } else {
                s
            },
            None => seq![s[0]] + strip_csi(s.drop_first()),
        }
    }
}

/// No control sequence starts at any position of `s`.
pub open spec fn no_csi(s: Seq<char>) -> bool {
    forall|i: int| 0 <= i < s.len() ==> #[trigger] csi_len(s.subrange(i, s.len() as int)) is None
}

/// Relies on `regex::Regex::replace_all` with the pattern `\x1b\[[0-9;]*[a-zA-Z]`
/// and an empty replacement: every leftmost-first, non-overlapping match is
/// removed. The pattern's parameter and final classes are disjoint, so a match
/// starting at a given position is unique, which is what `strip_csi` scans for.
#[verifier::external_body]
fn regex_strip_csi(s: &str) -> (r: String)
    ensures
        r@ == strip_csi(s@),
{
    let re = regex::Regex::new(r"\x1b\[[0-9;]*[a-zA-Z]").unwrap();
    re.replace_all(s, "").to_string()
}

/// Strip ANSI escape codes from a line.
pub fn strip_ansi_codes(s: &str) -> (r: String)
    ensures
        r@ == strip_csi(s@),
{
    regex_strip_csi(s)
}

/// A line in which no control sequence starts anywhere comes back unchanged.
pub proof fn lemma_strip_identity(s: Seq<char>)
    requires
        no_csi(s),
    ensures
        strip_csi(s) == s,
    decreases s.len(),
{
    if s.len() > 0 {
        assert(s.subrange(0, s.len() as int) =~= s);
        assert(csi_len(s.subrange(0, s.len() as int)) is None);
        let t = s.drop_first();
        assert forall|i: int| 0 <= i < t.len() implies #[trigger] csi_len(t.subrange(i, t.len() as int)) is None by {
            assert(t.subrange(i, t.len() as int) =~= s.subrange(i + 1, s.len() as int));
            assert(csi_len(s.subrange(i + 1, s.len() as int)) is None);
        }
        lemma_strip_identity(t);
        assert(seq![s[0]] + t =~= s);
    }
}

proof fn lemma_param_run_prefix(c: Seq<char>, t: Seq<char>)
    requires
        param_run(c) < c.len(),
    ensures
        param_run(c + t) == param_run(c),
    decreases c.len(),
{
    if c.len() > 0 && is_csi_param(c[0]) {
        assert((c + t).drop_first() =~= c.drop_first() + t);
        lemma_param_run_prefix(c.drop_first(), t);
    }
}

/// A control sequence at the front is removed whatever follows it.
pub proof fn lemma_strip_leading_sequence(c: Seq<char>, t: Seq<char>)
    requires
        csi_len(c) == Some(c.len()),
    ensures
        strip_csi(c + t) == strip_csi(t),
{
    let ct = c + t;
    let k = param_run(c.subrange(2, c.len() as int));
    assert(ct.subrange(2, ct.len() as int) =~= c.subrange(2, c.len() as int) + t);
    lemma_param_run_prefix(c.subrange(2, c.len() as int), t);
    assert(csi_len(ct) == Some(k + 3));
    assert(ct.subrange(c.len() as int, ct.len() as int) =~= t);
}

/// Text in which no escape character occurs is kept as it stands, ahead of
/// whatever the rest of the line becomes.
pub proof fn lemma_strip_plain_prefix(p: Seq<char>, t: Seq<char>)
    requires
        forall|i: int| 0 <= i < p.len() ==> p[i] != '\u{1b}',
    ensures
        strip_csi(p + t) == p + strip_csi(t),
    decreases p.len(),
{
    if p.len() > 0 {
        let pt = p + t;
        assert(pt[0] == p[0]);
        assert(csi_len(pt) is None);
        assert(pt.drop_first() =~= p.drop_first() + t);
        lemma_strip_plain_prefix(p.drop_first(), t);
        assert(seq![p[0]] + (p.drop_first() + strip_csi(t)) =~= p + strip_csi(t));
    } else {
        assert(p + t =~= t);
    }
}

/// Every control sequence is removed wherever it stands: plain text around
/// any number of sequences keeps only the plain text.
pub proof fn lemma_strip_sequence_anywhere(p: Seq<char>, c: Seq<char>, t: Seq<char>)
    requires
        forall|i: int| 0 <= i < p.len() ==> p[i] != '\u{1b}',
        csi_len(c) == Some(c.len()),
    ensures
        strip_csi(p + c + t) == p + strip_csi(t),
{
    assert(p + c + t =~= p + (c + t));
    lemma_strip_plain_prefix(p, c + t);
    lemma_strip_leading_sequence(c, t);
}

} // verus!
