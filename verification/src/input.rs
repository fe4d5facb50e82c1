//! The input loop's decisions.  The running program repeatedly prompts and
//! blocks on a terminal read; what it does with each outcome — keep going,
//! stop cleanly, or abort — is decided here and proved exact.

use vstd::prelude::*;

verus! {

use crate::text::{eq_ignore_case, eq_ignore_case_str, trim_line, trimmed};

/// What one attempt to read a line produced: the line itself, or a terminal
/// read failure.
#[derive(Debug)]
pub enum ReadOutcome {
    Line(String),
    Failed,
}

/// What the input loop does next.
#[derive(Debug, Clone, Copy, PartialEq, Eq, Structural)]
pub enum InputAction {
    /// Prompt and read again.
    Continue,
    /// Stop the loop: the user asked to quit.
    Stop,
    /// The terminal is unusable: abort the process.
    Abort,
}

/// A line ends the loop when, with surrounding whitespace removed, it equals
/// "quit" ignoring ASCII letter case.
pub open spec fn is_quit_line(s: Seq<char>) -> bool {
    eq_ignore_case(trimmed(s), "quit"@)
}

/// The decision taken for one read outcome: a quit line stops the loop, any
/// other line continues it, and a read failure aborts.
pub open spec fn input_action(r: ReadOutcome) -> InputAction {
    match r {
        ReadOutcome::Line(l) => if is_quit_line(l@) {
            InputAction::Stop
        } else {
            InputAction::Continue
        },
        ReadOutcome::Failed => InputAction::Abort,
    }
}

/// Decides whether `line` ends the input loop.
pub fn is_quit(line: &str) -> (r: bool)
    ensures
        r == is_quit_line(line@),
{
    let t = trim_line(line);
    eq_ignore_case_str(t, "quit")
}

/// Decides what the input loop does after one read attempt.
pub fn input_step(r: &ReadOutcome) -> (a: InputAction)
    ensures
        a == input_action(*r),
{
    match r {
        ReadOutcome::Line(l) => {
            if is_quit(l.as_str()) {
                InputAction::Stop
            } else {
                InputAction::Continue
            }
        },
        ReadOutcome::Failed => InputAction::Abort,
    }
}

/// The loop stops on a line exactly when that line, trimmed, equals "quit"
/// ignoring ASCII letter case; no other line outcome stops it.
pub proof fn lemma_stop_iff_quit(line: String)
    ensures
        input_action(ReadOutcome::Line(line)) is Stop <==> eq_ignore_case(
            trimmed(line@),
            "quit"@,
        ),
        !(input_action(ReadOutcome::Line(line)) is Abort),
{
}

/// A terminal read failure always aborts the loop; it neither continues nor
/// stops cleanly.
pub proof fn lemma_read_failure_aborts()
    ensures
        input_action(ReadOutcome::Failed) is Abort,
{
}

/// Replays the loop's decision over a recorded script of input lines:
/// returns how many lines are consumed before the loop stops.  Every line
/// before that point is not a quit line; the line at that point, if the
/// script holds one, is.
#[verifier::loop_isolation(false)]
pub fn first_quit_index(lines: &Vec<String>) -> (k: usize)
    ensures
        k <= lines@.len(),
        forall|i: int| 0 <= i < k ==> !is_quit_line(lines@[i]@),
        k < lines@.len() ==> is_quit_line(lines@[k as int]@),
{
    let mut i: usize = 0;
    while i < lines.len()
        invariant
            i <= lines@.len(),
            forall|j: int| 0 <= j < i ==> !is_quit_line(lines@[j]@),
        decreases lines@.len() - i,
    {
        if is_quit(lines[i].as_str()) {
            return i;
        }
        i = i + 1;
    }
    i
}

} // verus!
