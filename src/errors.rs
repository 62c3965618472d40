//! User-facing classification of a failed operation.
use vstd::prelude::*;
use crate::text::{chars_of, string_of, trim, trim_seq};

verus! {

/// The operation during which a failure happened.
#[derive(Debug, Clone)]
pub struct ErrorContext {
    pub operation: String,
}

/// A short summary, optional detail and one suggestion for a failure.
#[derive(Debug, Clone)]
pub struct ParsedError {
    pub summary: String,
    pub detail: Option<String>,
    pub suggestion: String,
}

pub open spec fn summary_of(operation: Seq<char>) -> Seq<char> {
    operation + " failed"@
}

pub open spec fn detail_of(stderr: Seq<char>) -> Option<Seq<char>> {
    if trim(stderr).len() == 0 {
        None
    } else {
        Some(trim(stderr))
    }
}

impl ParsedError {
    /// Build the error for a failure of `context.operation` whose error
    /// output was `stderr`: the summary names the operation, the detail is
    /// the trimmed error output when there is any.
    pub fn from_stderr(stderr: &str, context: ErrorContext) -> (r: ParsedError)
        ensures
            r.summary@ == summary_of(context.operation@),
            match r.detail {
                Some(d) => detail_of(stderr@) == Some(d@),
                None => detail_of(stderr@) is None,
            },
            r.suggestion@ == "See the output above for details"@,
    {
        let mut summary = context.operation;
        summary.append(" failed");
        let t = trim_seq(&chars_of(stderr));
        let detail = if t.len() == 0 {
            None
        } else {
            Some(string_of(&t))
        };
        ParsedError {
            summary,
            detail,
            suggestion: String::from_str("See the output above for details"),
        }
    }
}

} // verus!
