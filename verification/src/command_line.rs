//! The decisions behind the terminal layer: which color an agent statement
//! is printed in, and how a typed safety-confirmation answer is read.

use vstd::prelude::*;
use vstd::string::StrSliceExecFns;
use crate::text::{trim_spec, trim_text};

verus! {

broadcast use vstd::utf8::char_u32_cast, vstd::utf8::char_is_scalar;

/// The kinds of agent statement the driver prints.
#[derive(Debug, PartialEq, Eq, Structural, Clone, Copy)]
pub enum PrintCommand {
    AICall,
    UnitTest,
    Issue,
}

/// The highlight color an agent statement is printed in.
#[derive(Debug, PartialEq, Eq, Structural, Clone, Copy)]
pub enum StatementColor {
    Cyan,
    Magenta,
    Red,
}

pub open spec fn statement_color_spec(c: PrintCommand) -> StatementColor {
    match c {
        PrintCommand::AICall => StatementColor::Cyan,
        PrintCommand::UnitTest => StatementColor::Magenta,
        PrintCommand::Issue => StatementColor::Red,
    }
}

impl PrintCommand {
    /// The color this kind of statement is printed in: cyan for completion
    /// calls, magenta for unit testing, red for issues.
    pub fn statement_color(&self) -> (c: StatementColor)
        ensures
            c == statement_color_spec(*self),
    {
        match self {
            PrintCommand::AICall => StatementColor::Cyan,
            PrintCommand::UnitTest => StatementColor::Magenta,
            PrintCommand::Issue => StatementColor::Red,
        }
    }
}

/// How a typed answer to the safety confirmation is understood.
#[derive(Debug, PartialEq, Eq, Structural, Clone, Copy)]
pub enum ConfirmAnswer {
    /// The user allows the generated code to run.
    Affirm,
    /// The user refuses; the whole run stops.
    Decline,
    /// The answer was not recognized; the question is asked again.
    Unrecognized,
}

/// The character's code after ASCII lowercasing: an upper-case ASCII letter
/// moves down into the lower-case range, everything else keeps its code.
pub open spec fn lower_code(c: char) -> int {
    if 'A' <= c && c <= 'Z' {
        (c as u32) + 32
    } else {
        (c as u32) as int
    }
}

/// Whether `s` equals `pat` after ASCII lowercasing of `s` (the patterns the
/// confirmation understands are all lower case).
pub open spec fn matches_ci_spec(s: Seq<char>, pat: Seq<char>) -> bool {
    s.len() == pat.len() && forall|i: int|
        0 <= i < s.len() ==> lower_code(s[i]) == #[trigger] (pat[i] as u32)
}

/// How the confirmation prompt reads one typed answer, after trimming and
/// ASCII lowercasing.
pub open spec fn classify_confirmation_spec(answer: Seq<char>) -> ConfirmAnswer {
    let t = trim_spec(answer);
    if matches_ci_spec(t, "1"@) || matches_ci_spec(t, "yes"@) || matches_ci_spec(t, "y"@)
        || matches_ci_spec(t, "continue"@) || matches_ci_spec(t, "c"@) || matches_ci_spec(
        t,
        "ok"@,
    ) {
        ConfirmAnswer::Affirm
    } else if matches_ci_spec(t, "2"@) || matches_ci_spec(t, "no"@) || matches_ci_spec(t, "n"@)
        || matches_ci_spec(t, "exit"@) || matches_ci_spec(t, "e"@) {
        ConfirmAnswer::Decline
    } else {
        ConfirmAnswer::Unrecognized
    }
}

fn char_eq_ci(c: char, p: char) -> (r: bool)
    ensures
        r == (lower_code(c) == p as u32),
{
    if 'A' <= c && c <= 'Z' {
        (c as u32) + 32 == (p as u32)
    } else {
        c == p
    }
}

fn matches_ci(s: &str, pat: &str) -> (r: bool)
    ensures
        r == matches_ci_spec(s@, pat@),
{
    let n = s.unicode_len();
    let m = pat.unicode_len();
    if n != m {
        return false;
    }
    let mut i: usize = 0;
    while i < n
        invariant
            0 <= i <= n,
            n == s@.len(),
            n == pat@.len(),
            forall|k: int| 0 <= k < i ==> lower_code(s@[k]) == #[trigger] (pat@[k] as u32),
        decreases n - i,
    {
        if !char_eq_ci(s.get_char(i), pat.get_char(i)) {
            return false;
        }
        i = i + 1;
    }
    true
}

/// Reads one typed answer to the safety confirmation: the affirmative words
/// allow the generated code to run, the negative ones stop the whole run,
/// anything else asks again.  Matching ignores surrounding whitespace and
/// ASCII case.
pub fn classify_confirmation(answer: &str) -> (a: ConfirmAnswer)
    ensures
        a == classify_confirmation_spec(answer@),
{
    let t = trim_text(answer);
    let ts = t.as_str();
    if matches_ci(ts, "1") || matches_ci(ts, "yes") || matches_ci(ts, "y") || matches_ci(
        ts,
        "continue",
    ) || matches_ci(ts, "c") || matches_ci(ts, "ok") {
        ConfirmAnswer::Affirm
    } else if matches_ci(ts, "2") || matches_ci(ts, "no") || matches_ci(ts, "n") || matches_ci(
        ts,
        "exit",
    ) || matches_ci(ts, "e") {
        ConfirmAnswer::Decline
    } else {
        ConfirmAnswer::Unrecognized
    }
}

} // verus!
