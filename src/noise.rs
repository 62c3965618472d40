//! Filtering of the dependency tool's output: blank lines kept, HTML/CSS error
//! pages, base64 blobs and dirty-tree warnings dropped, JSON error bodies
//! reduced to their message.
use vstd::prelude::*;
use crate::text::{
    chars_of, contains_seq, ends_with, ends_with_seq, has_sub, is_ws, starts_with,
    starts_with_seq, string_of, trim, trim_seq,
};

verus! {

/// Lines longer than this many characters, with no space and no colon, are taken for base64.
pub const BASE64_MIN_CHARS: usize = 100;

/// JSON messages longer than this many characters are truncated.
pub const MESSAGE_MAX_CHARS: usize = 80;

/// Characters of a truncated JSON message kept ahead of the ellipsis.
pub const MESSAGE_KEEP_CHARS: usize = 77;

/// Length of the run of white space at the start of `t`.
pub open spec fn ws_run(t: Seq<char>) -> nat
    decreases t.len(),
{
    if t.len() > 0 && is_ws(t[0]) {
        1 + ws_run(t.drop_first())
    } else {
        0
    }
}

/// Length of the run of characters other than `"` at the start of `t`.
pub open spec fn text_run(t: Seq<char>) -> nat
    decreases t.len(),
{
    if t.len() > 0 && t[0] != '"' {
        1 + text_run(t.drop_first())
    } else {
        0
    }
}

pub open spec fn message_key() -> Seq<char> {
    seq!['"', 'm', 'e', 's', 's', 'a', 'g', 'e', '"']
}

/// The text captured by `"message"\s*:\s*"([^"]+)"` when a match starts `s`.
pub open spec fn message_at(s: Seq<char>) -> Option<Seq<char>> {
    if starts_with(s, message_key()) {
        let a = 9 + ws_run(s.subrange(9, s.len() as int)) as int;
        if a < s.len() && s[a] == ':' {
            let b = a + 1 + ws_run(s.subrange(a + 1, s.len() as int)) as int;
            if b < s.len() && s[b] == '"' {
                let m = text_run(s.subrange(b + 1, s.len() as int)) as int;
                if m > 0 && b + 1 + m < s.len() && s[b + 1 + m] == '"' {
                    Some(s.subrange(b + 1, b + 1 + m))
                } else {
                    None
                }
            } else {
                None
            }
        } else {
            None
        }
    } else {
        None
    }
}

/// The captured text of the leftmost match in `s`.
pub open spec fn first_message(s: Seq<char>) -> Option<Seq<char>>
    decreases s.len(),
{
    if s.len() == 0 {
        None
    } else if message_at(s) is Some {
        message_at(s)
    } else {
        first_message(s.drop_first())
    }
}

/// Relies on `regex::Regex::captures` with the pattern `"message"\s*:\s*"([^"]+)"`:
/// the first capture group of the leftmost-first match. From any start the
/// pattern can match in one way only (`\s`, `:` and `"` are disjoint from what
/// precedes them), so the leftmost match is the first start at which it matches.
#[verifier::external_body]
fn regex_json_message(s: &str) -> (r: Option<String>)
    ensures
        match r {
            Some(m) => first_message(s@) == Some(m@),
            None => first_message(s@) is None,
        },
{
    let re = regex::Regex::new(r#""message"\s*:\s*"([^"]+)""#).unwrap();
    re.captures(s).and_then(|c| c.get(1)).map(|m| m.as_str().to_string())
}

/// The start of an HTML error page, or a lone bracket from one.
pub open spec fn is_markup(t: Seq<char>) -> bool {
    starts_with(t, "<!DOCTYPE"@) || starts_with(t, "<html"@) || starts_with(t, "<head"@)
        || starts_with(t, "<body"@) || starts_with(t, "<style"@) || starts_with(t, "<div"@)
        || starts_with(t, "<title"@) || starts_with(t, "<meta"@) || starts_with(t, "<link"@)
        || starts_with(t, "<p>"@) || starts_with(t, "<ul"@) || starts_with(t, "<li"@)
        || starts_with(t, "<a "@) || starts_with(t, "<img"@) || starts_with(t, "</"@)
        || starts_with(t, "<!--"@) || starts_with(t, "-->"@) || t == "{"@ || t == "}"@
        || t == "("@ || t == ")"@
}

/// A line of a style sheet.
pub open spec fn is_css(t: Seq<char>) -> bool {
    has_sub(t, "background-color:"@) || has_sub(t, "font-family:"@) || has_sub(t, "text-align:"@)
        || has_sub(t, "margin:"@) || has_sub(t, "padding:"@) || (starts_with(t, "."@) && has_sub(
        t,
        "{"@,
    )) || (starts_with(t, "@media"@) && has_sub(t, "{"@))
}

/// A long token with no space and no colon.
pub open spec fn is_base64_like(t: Seq<char>) -> bool {
    t.len() > BASE64_MIN_CHARS && !has_sub(t, " "@) && !has_sub(t, ":"@)
}

/// A message cut to its first characters and an ellipsis when too long.
pub open spec fn shorten(m: Seq<char>) -> Seq<char> {
    if m.len() > MESSAGE_MAX_CHARS {
        m.subrange(0, MESSAGE_KEEP_CHARS as int) + "..."@
    } else {
        m
    }
}

/// What the noise filter makes of one line: `None` drops it.
pub open spec fn filtered(line: Seq<char>) -> Option<Seq<char>> {
    let t = trim(line);
    if t.len() == 0 {
        Some(line)
    } else if has_sub(line, "is dirty"@) {
        None
    } else if is_markup(t) || is_css(t) || is_base64_like(t) {
        None
    } else if starts_with(t, "*/"@) || ends_with(t, "*/"@) {
        None
    } else if starts_with(t, "{\""@) && has_sub(t, "\"message\""@) {
        match first_message(t) {
            Some(m) => Some("       → "@ + shorten(m)),
            None => None,
        }
    } else {
        Some(line)
    }
}

fn begins(t: &Vec<char>, p: &str) -> (r: bool)
    ensures
        r == starts_with(t@, p@),
{
    starts_with_seq(t, &chars_of(p))
}

fn holds(t: &Vec<char>, p: &str) -> (r: bool)
    ensures
        r == has_sub(t@, p@),
{
    contains_seq(t, &chars_of(p))
}

fn equals(t: &Vec<char>, p: &str) -> (r: bool)
    ensures
        r == (t@ == p@),
{
    let q = chars_of(p);
    if t.len() != q.len() {
        return false;
    }
    let r = starts_with_seq(t, &q);
    assert(t@.subrange(0, q@.len() as int) =~= t@);
    r
}

fn markup_exec(t: &Vec<char>) -> (r: bool)
    ensures
        r == is_markup(t@),
{
    begins(t, "<!DOCTYPE") || begins(t, "<html") || begins(t, "<head") || begins(t, "<body")
        || begins(t, "<style") || begins(t, "<div") || begins(t, "<title") || begins(t, "<meta")
        || begins(t, "<link") || begins(t, "<p>") || begins(t, "<ul") || begins(t, "<li")
        || begins(t, "<a ") || begins(t, "<img") || begins(t, "</") || begins(t, "<!--")
        || begins(t, "-->") || equals(t, "{") || equals(t, "}") || equals(t, "(") || equals(
        t,
        ")",
    )
}

fn css_exec(t: &Vec<char>) -> (r: bool)
    ensures
        r == is_css(t@),
{
    holds(t, "background-color:") || holds(t, "font-family:") || holds(t, "text-align:")
        || holds(t, "margin:") || holds(t, "padding:") || (begins(t, ".") && holds(t, "{")) || (
    begins(t, "@media") && holds(t, "{"))
}

fn shorten_exec(m: &str) -> (r: String)
    ensures
        r@ == shorten(m@),
{
    let c = chars_of(m);
    if c.len() > MESSAGE_MAX_CHARS {
        let mut k: Vec<char> = Vec::new();
        let mut i: usize = 0;
        while i < MESSAGE_KEEP_CHARS
            invariant
                i <= MESSAGE_KEEP_CHARS < c@.len(),
                k@ == c@.subrange(0, i as int),
            decreases MESSAGE_KEEP_CHARS - i,
        {
            k.push(c[i]);
            i = i + 1;
        }
        let mut out = string_of(&k);
        out.append("...");
        out
    } else {
        string_of(&c)
    }
}

/// Transform a line of the dependency tool's output: `None` drops it,
/// `Some` gives the line to show.
pub fn transform_nix_output(line: &str) -> (r: Option<String>)
    ensures
        match r {
            Some(v) => filtered(line@) == Some(v@),
            None => filtered(line@) is None,
        },
{
    let l = chars_of(line);
    let t = trim_seq(&l);
    if t.len() == 0 {
        return Some(string_of(&l));
    }
    if holds(&l, "is dirty") {
        return None;
    }
    if markup_exec(&t) || css_exec(&t) {
        return None;
    }
    if t.len() > BASE64_MIN_CHARS && !holds(&t, " ") && !holds(&t, ":") {
        return None;
    }
    if begins(&t, "*/") || ends_with_seq(&t, &chars_of("*/")) {
        return None;
    }
    if begins(&t, "{\"") && holds(&t, "\"message\"") {
        let ts = string_of(&t);
        return match regex_json_message(ts.as_str()) {
            Some(m) => {
                let mut out = String::from_str("       → ");
                let s = shorten_exec(m.as_str());
                out.append(s.as_str());
                Some(out)
            },
            None => None,
        };
    }
    Some(string_of(&l))
}

/// A blank line (nothing but white space) is kept exactly as it was.
pub proof fn lemma_blank_line_kept(line: Seq<char>)
    requires
        forall|i: int| 0 <= i < line.len() ==> is_ws(#[trigger] line[i]),
    ensures
        filtered(line) == Some(line),
{
    crate::text::lemma_trim_all_ws(line);
}

/// A token longer than the base64 threshold, with no white space and no
/// colon, is dropped.
pub proof fn lemma_long_token_dropped(line: Seq<char>)
    requires
        line.len() > BASE64_MIN_CHARS,
        forall|i: int| 0 <= i < line.len() ==> !is_ws(#[trigger] line[i]) && line[i] != ':',
    ensures
        filtered(line) is None,
{
    crate::text::lemma_trim_no_ws(line);
    assert(!has_sub(line, " "@)) by {
        reveal_strlit(" ");
        if has_sub(line, " "@) {
            let i = choose|i: int| crate::text::occurs_at(line, " "@, i);
            assert(line.subrange(i, i + 1)[0] == line[i]);
        }
    }
    assert(!has_sub(line, ":"@)) by {
        reveal_strlit(":");
        if has_sub(line, ":"@) {
            let i = choose|i: int| crate::text::occurs_at(line, ":"@, i);
            assert(line.subrange(i, i + 1)[0] == line[i]);
        }
    }
}

} // verus!
