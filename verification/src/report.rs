//! What the client prints: one line per outcome, each bound for one of the
//! two console streams.

use crate::reply::{classify, classify_line, Verdict};
use vstd::prelude::*;
use vstd::string::*;

verus! {

/// The console stream a line is written to.
#[derive(Clone, Copy, Debug, PartialEq, Eq, Hash, Structural)]
pub enum Stream {
    /// Standard output: successes and unrecognised replies.
    Stdout,
    /// The error stream: error replies, write failures and the timeout
    /// warning.
    Stderr,
}

/// One line of console output, without its line ending.
#[derive(Clone, Debug, PartialEq, Eq, Hash)]
pub struct Line {
    pub stream: Stream,
    pub text: String,
}

/// Mathematical value of a [`Line`].
pub struct LineView {
    pub stream: Stream,
    pub text: Seq<char>,
}

impl View for Line {
    type V = LineView;

    open spec fn view(&self) -> LineView {
        LineView { stream: self.stream, text: self.text@ }
    }
}

/// The line printed when `reply` arrives for `command`: the command, a colon
/// and a space, then the message of a recognised reply or the whole of an
/// unrecognised one. Only an error reply goes to the error stream.
pub open spec fn reply_line(command: Seq<char>, reply: Seq<char>) -> LineView {
    let classified = classify_line(reply);
    LineView {
        stream: if classified.verdict == Verdict::Failure {
            Stream::Stderr
        } else {
            Stream::Stdout
        },
        text: command + ": "@ + classified.text,
    }
}

/// The line printed when a command could not be written to the command pipe;
/// `cause` is the text of the I/O error.
pub open spec fn write_failure_line(cause: Seq<char>) -> LineView {
    LineView {
        stream: Stream::Stderr,
        text: " ERROR: Couldn't write to commands.pipe: "@ + cause,
    }
}

/// The warning printed when no reply came in time.
pub open spec fn timeout_line() -> LineView {
    LineView {
        stream: Stream::Stderr,
        text: " WARN: timeout connecting to return pipe. Command may have executed, but errors will not be displayed."@,
    }
}

/// The summary with which a batch that ran to its end, but not cleanly, is
/// reported.
pub open spec fn failure_summary_text() -> Seq<char> {
    "one or more errors occured when parsing commands"@
}

/// Builds the line for a reply to `command`, and tells whether the reply
/// was an error.
pub fn report_reply(command: &str, reply: &str) -> (out: (Line, bool))
    ensures
        out.0@ == reply_line(command@, reply@),
        out.1 == (classify_line(reply@).verdict == Verdict::Failure),
{
    let classified = classify(reply);
    let mut text = String::from_str(command);
    text.append(": ");
    text.append(classified.text.as_str());
    match classified.verdict {
        Verdict::Failure => (Line { stream: Stream::Stderr, text }, true),
        _ => (Line { stream: Stream::Stdout, text }, false),
    }
}

/// Builds the line for a command that could not be written.
pub fn report_write_failure(cause: &str) -> (line: Line)
    ensures
        line@ == write_failure_line(cause@),
{
    let mut text = String::from_str(" ERROR: Couldn't write to commands.pipe: ");
    text.append(cause);
    Line { stream: Stream::Stderr, text }
}

/// Builds the timeout warning.
pub fn report_timeout() -> (line: Line)
    ensures
        line@ == timeout_line(),
{
    Line {
        stream: Stream::Stderr,
        text: String::from_str(
            " WARN: timeout connecting to return pipe. Command may have executed, but errors will not be displayed.",
        ),
    }
}

/// The summary for a batch that ended with a failure status.
pub fn failure_summary() -> (text: String)
    ensures
        text@ == failure_summary_text(),
{
    String::from_str("one or more errors occured when parsing commands")
}

} // verus!
