use forge::ansi::strip_ansi_codes;
use forge::buffer::OutputBuffer;
use forge::noise::transform_nix_output;

#[test]
fn strip_leaves_plain_text_unchanged() {
    assert_eq!(strip_ansi_codes("building the system"), "building the system");
    assert_eq!(strip_ansi_codes(""), "");
    assert_eq!(strip_ansi_codes("a [31m b ; 12m"), "a [31m b ; 12m");
}

#[test]
fn strip_removes_sequences_anywhere() {
    assert_eq!(strip_ansi_codes("\x1b[31mred\x1b[0m"), "red");
    assert_eq!(strip_ansi_codes("x\x1b[1;32my\x1b[mz"), "xyz");
    assert_eq!(strip_ansi_codes("\x1b[0m\x1b[0m\x1b[0m"), "");
    assert_eq!(strip_ansi_codes("end\x1b[2K"), "end");
}

#[test]
fn strip_keeps_incomplete_sequences() {
    assert_eq!(strip_ansi_codes("\x1b[12"), "\x1b[12");
    assert_eq!(strip_ansi_codes("\x1b(B"), "\x1b(B");
}

#[test]
fn filter_drops_css() {
    assert_eq!(transform_nix_output("background-color: red;"), None);
    assert_eq!(transform_nix_output("  font-family: sans;"), None);
    assert_eq!(transform_nix_output(".header {"), None);
}

#[test]
fn filter_keeps_blank_lines() {
    assert_eq!(transform_nix_output(""), Some(String::new()));
    assert_eq!(transform_nix_output("   "), Some("   ".to_string()));
}

#[test]
fn filter_extracts_json_message() {
    let r = transform_nix_output(r#"{"message":"API rate limit exceeded"}"#).unwrap();
    assert!(r.contains("API rate limit exceeded"));
    assert!(!r.contains('{') && !r.contains('}') && !r.contains('"'));
    assert_eq!(r, "       → API rate limit exceeded");
}

#[test]
fn filter_truncates_long_json_message() {
    let msg = "a".repeat(100);
    let line = format!("{{\"message\": \"{}\", \"documentation_url\": \"x\"}}", msg);
    let r = transform_nix_output(&line).unwrap();
    assert_eq!(r, format!("       → {}...", "a".repeat(77)));
    let exact = "b".repeat(80);
    let line = format!("{{\"message\":\"{}\"}}", exact);
    assert_eq!(transform_nix_output(&line).unwrap(), format!("       → {}", exact));
}

#[test]
fn filter_drops_unreadable_json() {
    assert_eq!(transform_nix_output(r#"{"message": 42}"#), None);
}

#[test]
fn filter_drops_long_tokens() {
    let token = "Q".repeat(150);
    assert_eq!(transform_nix_output(&token), None);
    let short = "Q".repeat(100);
    assert_eq!(transform_nix_output(&short), Some(short.clone()));
}

#[test]
fn filter_drops_markup_and_warnings() {
    assert_eq!(transform_nix_output("<!DOCTYPE html>"), None);
    assert_eq!(transform_nix_output("  </div>"), None);
    assert_eq!(transform_nix_output("}"), None);
    assert_eq!(transform_nix_output("warning: Git tree '/etc/nixos' is dirty"), None);
    assert_eq!(transform_nix_output("/* comment */"), None);
}

#[test]
fn filter_passes_ordinary_lines() {
    let line = "  unpacking 'github:NixOS/nixpkgs' into the Git cache...";
    assert_eq!(transform_nix_output(line), Some(line.to_string()));
}

#[test]
fn buffer_evicts_oldest_lines() {
    let mut b = OutputBuffer::with_capacity(3);
    for i in 0..5 {
        b.push_line(format!("line {}", i));
    }
    assert_eq!(b.len(), 3);
    assert_eq!(b.to_vec(), vec!["line 2", "line 3", "line 4"]);
    assert_eq!(b.get(0), "line 2");
}

#[test]
fn buffer_default_capacity() {
    let mut b = OutputBuffer::new();
    for i in 0..1005 {
        b.push_line(i.to_string());
    }
    assert_eq!(b.len(), 1000);
    assert_eq!(b.get(0), "5");
}
