//! Per-target result reporting: composing the one line a target's outcome
//! produces, routing it to the right stream, and optionally colorizing
//! failure lines.

use colored::Colorize;
use std::io::Write;
use vstd::prelude::*;

use crate::digest::{Digest, IoFailure};
use crate::target::{target_label, Target};

verus! {

/// The stream a report line is routed to: standard output for successes,
/// standard error for failures.
#[derive(Clone, Copy, Debug, PartialEq, Eq, Structural)]
pub enum Stream {
    Stdout,
    Stderr,
}

/// One composed report line together with the stream it belongs on.
#[derive(Clone, Debug)]
pub struct ReportLine {
    pub text: String,
    pub stream: Stream,
}

/// The failure a line write itself ran into; propagated, never swallowed.
#[derive(Clone, Debug)]
pub struct WriteError {
    pub message: String,
}

/// What `str::to_lowercase` returns: a function of the characters alone.
pub uninterp spec fn lower_of(s: Seq<char>) -> Seq<char>;

/// Relies on `str::to_lowercase`: the returned string is the lowercase
/// equivalent of the input, determined by the input's characters alone,
/// and an empty input stays empty.
#[verifier::external_body]
fn to_lowercase(s: &str) -> (r: String)
    ensures
        r@ == lower_of(s@),
        s@.len() == 0 ==> r@.len() == 0,
{
    s.to_lowercase()
}

/// The text of the line reported for a successful outcome.
pub open spec fn success_text(t: Target, d: Digest) -> Seq<char> {
    target_label(t) + ": "@ + d@
}

/// The text of the plain (uncolorized) line reported for a failed outcome:
/// the failure's message is lowercased for display consistency.
pub open spec fn failure_text(t: Target, e: IoFailure) -> Seq<char> {
    target_label(t) + ": "@ + lower_of(e@)
}

/// `s` wrapped in the red ANSI style directive and the reset directive.
pub open spec fn red_wrapped(s: Seq<char>) -> Seq<char> {
    "\u{1B}[31m"@ + s + "\u{1B}[0m"@
}

/// Holds when `s` contains the ANSI escape character somewhere.
pub open spec fn has_escape_char(s: Seq<char>) -> bool {
    exists|i: int| 0 <= i < s.len() && s[i] == '\u{1B}'
}

/// The text of `s` once a red style wrapping, if present, is stripped.
pub open spec fn visible_text(s: Seq<char>) -> Seq<char> {
    if is_red_wrapped(s) {
        s.subrange(5, s.len() - 4)
    } else {
        s
    }
}

/// Holds when `s` begins with the red style directive and ends with the
/// reset directive.
pub open spec fn is_red_wrapped(s: Seq<char>) -> bool {
    s.len() >= 9 && s.subrange(0, 5) == "\u{1B}[31m"@ && s.subrange(s.len() - 4, s.len() as int)
        == "\u{1B}[0m"@
}

/// Colorization only wraps, never rewrites: stripping the styling from a
/// red-wrapped line gives the plain line back, and a plain line free of
/// escape characters is left untouched by the stripping.
pub proof fn lemma_styling_preserves_visible_text(s: Seq<char>)
    requires
        !has_escape_char(s),
    ensures
        visible_text(red_wrapped(s)) == s,
        visible_text(s) == s,
{
    reveal_strlit("\u{1B}[31m");
    reveal_strlit("\u{1B}[0m");
    let w = red_wrapped(s);
    assert(w.subrange(0, 5) =~= "\u{1B}[31m"@);
    assert(w.subrange(w.len() - 4, w.len() as int) =~= "\u{1B}[0m"@);
    assert(w.subrange(5, w.len() - 4) =~= s);
    if is_red_wrapped(s) {
        assert(s.subrange(0, 5)[0] == s[0]);
        assert(s[0] == '\u{1B}');
        assert(false);
    }
}

/// Relies on colored's `Colorize::red` and `ColoredString`'s `Display`:
/// when colored's process-wide colorize decision is off the text comes
/// back unchanged; when it is on, a line that holds no escape character
/// comes back wrapped in the red style directive and the reset directive.
#[verifier::external_body]
fn paint_red(s: &str) -> (r: String)
    ensures
        !has_escape_char(s@) ==> (r@ == s@ || r@ == red_wrapped(s@)),
{
    s.red().to_string()
}

/// Relies on `std::io::Stdout`: writes the line and a terminating newline
/// to standard output; a transport-level failure is handed back.
#[verifier::external_body]
fn write_stdout_line(line: &str) -> (r: Result<(), WriteError>) {
    match writeln!(std::io::stdout(), "{}", line) {
        Ok(()) => Ok(()),
        Err(error) => Err(WriteError { message: error.to_string() }),
    }
}

/// Relies on `std::io::Stderr`: writes the line and a terminating newline
/// to standard error; a transport-level failure is handed back.
#[verifier::external_body]
fn write_stderr_line(line: &str) -> (r: Result<(), WriteError>) {
    match writeln!(std::io::stderr(), "{}", line) {
        Ok(()) => Ok(()),
        Err(error) => Err(WriteError { message: error.to_string() }),
    }
}

/// Holds when `line` is the report that `outcome` for `target` must
/// produce: routed to standard output with the digest's rendering on
/// success, to standard error with the lowercased message on failure, the
/// failure text at most wrapped — never rewritten — when colorization is
/// on.
pub open spec fn well_reported(
    target: Target,
    outcome: Result<Digest, IoFailure>,
    colorize: bool,
    line: ReportLine,
) -> bool {
    &&& line.stream == (if outcome is Ok {
        Stream::Stdout
    } else {
        Stream::Stderr
    })
    &&& (outcome is Ok ==> line.text@ == success_text(target, outcome->Ok_0))
    &&& (outcome is Err && !colorize ==> line.text@ == failure_text(target, outcome->Err_0))
    &&& (outcome is Err && colorize && !has_escape_char(failure_text(target, outcome->Err_0))
        ==> (line.text@ == failure_text(target, outcome->Err_0) || line.text@ == red_wrapped(
        failure_text(target, outcome->Err_0),
    )))
    &&& (outcome is Err && colorize && !has_escape_char(failure_text(target, outcome->Err_0))
        ==> visible_text(line.text@) == failure_text(target, outcome->Err_0))
}

/// Composes the one report line for a target's outcome: success lines
/// carry the digest rendering, failure lines the lowercased message,
/// wrapped in red styling when colorization is enabled and the terminal
/// takes it.
pub fn render_report(target: &Target, outcome: &Result<Digest, IoFailure>, colorize: bool) -> (r:
    ReportLine)
    ensures
        well_reported(*target, *outcome, colorize, r),
{
    match outcome {
        Ok(digest) => {
            let mut text = target.display();
            text.append(": ");
            text.append(digest.hex.as_str());
            proof {
                assert(text@ =~= success_text(*target, (*outcome)->Ok_0));
            }
            ReportLine { text, stream: Stream::Stdout }
        },
        Err(failure) => {
            let lowered = to_lowercase(failure.message.as_str());
            let mut text = target.display();
            text.append(": ");
            text.append(lowered.as_str());
            proof {
                assert(text@ =~= failure_text(*target, (*outcome)->Err_0));
            }
            if colorize {
                let painted = paint_red(text.as_str());
                proof {
                    let plain = failure_text(*target, (*outcome)->Err_0);
                    if !has_escape_char(plain) {
                        lemma_styling_preserves_visible_text(plain);
                    }
                }
                ReportLine { text: painted, stream: Stream::Stderr }
            } else {
                ReportLine { text, stream: Stream::Stderr }
            }
        },
    }
}

/// Writes a target's report line to its stream: the success line to
/// standard output, the failure line to standard error — exactly one line
/// to exactly one stream. The composed line is handed back; only a failure
/// of the stream write itself is an error, and it is propagated.
pub fn print_result(target: &Target, outcome: &Result<Digest, IoFailure>, colorize: bool) -> (r:
    Result<ReportLine, WriteError>)
    ensures
        r is Ok ==> well_reported(*target, *outcome, colorize, r->Ok_0),
{
    let line = render_report(target, outcome, colorize);
    let written = match line.stream {
        Stream::Stdout => write_stdout_line(line.text.as_str()),
        Stream::Stderr => write_stderr_line(line.text.as_str()),
    };
    match written {
        Ok(()) => Ok(line),
        Err(error) => Err(error),
    }
}

/// Composes the report lines of a whole run, one line per target in target
/// order — no drops, no duplicates, no reordering.
pub fn report_all(
    targets: &Vec<Target>,
    outcomes: &Vec<Result<Digest, IoFailure>>,
    colorize: bool,
) -> (lines: Vec<ReportLine>)
    requires
        targets@.len() == outcomes@.len(),
    ensures
        lines@.len() == targets@.len(),
        forall|i: int|
            0 <= i < lines@.len() ==> well_reported(
                targets@[i],
                outcomes@[i],
                colorize,
                #[trigger] lines@[i],
            ),
{
    let n = targets.len();
    let mut lines: Vec<ReportLine> = Vec::new();
    let mut i: usize = 0;
    while i < n
        invariant
            i <= n,
            n == targets@.len(),
            n == outcomes@.len(),
            lines@.len() == i,
            forall|j: int|
                0 <= j < i ==> well_reported(
                    targets@[j],
                    outcomes@[j],
                    colorize,
                    #[trigger] lines@[j],
                ),
        decreases n - i,
    {
        let line = render_report(&targets[i], &outcomes[i], colorize);
        lines.push(line);
        i = i + 1;
    }
    lines
}

} // verus!
