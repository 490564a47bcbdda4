//! A whole batch at once: what the client prints and how it exits, given
//! what happened to each command.

use crate::dispatch::{texts, Action, Dispatcher, Event, EventView, Phase, Session};
use crate::report::{reply_line, timeout_line, write_failure_line, Line, LineView, Stream};
use crate::reply::{
    classify_line, has_space, lemma_spaceless_line_is_unrecognized, lemma_split_joined, Verdict,
};
use vstd::prelude::*;
use vstd::string::*;

verus! {

/// What happened to one command.
#[derive(Clone, Debug, PartialEq, Eq, Hash)]
pub enum Outcome {
    /// It could not be written; the text is that of the I/O error.
    WriteFailed(String),
    /// It was written and this reply line came back in time.
    Replied(String),
    /// It was written and no reply came in time.
    TimedOut,
}

/// Mathematical value of an [`Outcome`].
pub enum OutcomeView {
    WriteFailed(Seq<char>),
    Replied(Seq<char>),
    TimedOut,
}

impl View for Outcome {
    type V = OutcomeView;

    open spec fn view(&self) -> OutcomeView {
        match self {
            Outcome::WriteFailed(cause) => OutcomeView::WriteFailed(cause@),
            Outcome::Replied(line) => OutcomeView::Replied(line@),
            Outcome::TimedOut => OutcomeView::TimedOut,
        }
    }
}

/// A command together with what happened to it.
#[derive(Clone, Debug, PartialEq, Eq, Hash)]
pub struct Exchange {
    pub command: String,
    pub outcome: Outcome,
}

/// Mathematical value of an [`Exchange`].
pub struct ExchangeView {
    pub command: Seq<char>,
    pub outcome: OutcomeView,
}

impl View for Exchange {
    type V = ExchangeView;

    open spec fn view(&self) -> ExchangeView {
        ExchangeView { command: self.command@, outcome: self.outcome@ }
    }
}

/// What a batch left behind: the lines printed, in order, the exit code, and
/// the number of commands gone through before the client left.
#[derive(Clone, Debug, PartialEq, Eq, Hash)]
pub struct Report {
    pub lines: Vec<Line>,
    pub exit_code: i32,
    pub handled: usize,
}

/// Mathematical value of a [`Report`].
pub struct ReportView {
    pub lines: Seq<LineView>,
    pub exit_code: i32,
    pub handled: nat,
}

/// The values of a sequence of lines.
pub open spec fn line_views(lines: Seq<Line>) -> Seq<LineView> {
    Seq::new(lines.len(), |i: int| lines[i]@)
}

/// The values of a sequence of exchanges.
pub open spec fn exchange_views(exchanges: Seq<Exchange>) -> Seq<ExchangeView> {
    Seq::new(exchanges.len(), |i: int| exchanges[i]@)
}

/// The commands of a sequence of exchanges.
pub open spec fn commands_of(exchanges: Seq<ExchangeView>) -> Seq<Seq<char>> {
    Seq::new(exchanges.len(), |i: int| exchanges[i].command)
}

impl View for Report {
    type V = ReportView;

    open spec fn view(&self) -> ReportView {
        ReportView {
            lines: line_views(self.lines@),
            exit_code: self.exit_code,
            handled: self.handled as nat,
        }
    }
}

/// The one line that an exchange prints.
pub open spec fn exchange_line(exchange: ExchangeView) -> LineView {
    match exchange.outcome {
        OutcomeView::WriteFailed(cause) => write_failure_line(cause),
        OutcomeView::Replied(line) => reply_line(exchange.command, line),
        OutcomeView::TimedOut => timeout_line(),
    }
}

/// The exchange counts against the exit status: a write failure, an error
/// reply or a timeout.
pub open spec fn exchange_fails(exchange: ExchangeView) -> bool {
    match exchange.outcome {
        OutcomeView::WriteFailed(_) => true,
        OutcomeView::Replied(line) => classify_line(line).verdict == Verdict::Failure,
        OutcomeView::TimedOut => true,
    }
}

/// The exchange ended in a timeout.
pub open spec fn times_out(exchange: ExchangeView) -> bool {
    exchange.outcome == OutcomeView::TimedOut
}

/// `i` is the first exchange that ended in a timeout.
pub open spec fn first_timeout_at(exchanges: Seq<ExchangeView>, i: int) -> bool {
    &&& 0 <= i < exchanges.len()
    &&& times_out(exchanges[i])
    &&& forall|j: int| 0 <= j < i ==> !times_out(#[trigger] exchanges[j])
}

/// The number of exchanges the client goes through: all of them, or those
/// up to and including the first timeout.
pub open spec fn handled_count(exchanges: Seq<ExchangeView>) -> nat {
    if exists|i: int| first_timeout_at(exchanges, i) {
        (choose|i: int| first_timeout_at(exchanges, i)) as nat + 1
    } else {
        exchanges.len()
    }
}

/// One of the first `count` exchanges counts against the exit status.
pub open spec fn any_failure(exchanges: Seq<ExchangeView>, count: nat) -> bool {
    exists|i: int| 0 <= i < count && i < exchanges.len() && exchange_fails(#[trigger] exchanges[i])
}

/// What the client prints and how it exits: one line for each exchange it
/// goes through, in their order, and exit code 1 if one of those exchanges
/// failed, 0 otherwise.
pub open spec fn batch_report(exchanges: Seq<ExchangeView>) -> ReportView {
    let count = handled_count(exchanges);
    ReportView {
        lines: Seq::new(count, |i: int| exchange_line(exchanges[i])),
        exit_code: if any_failure(exchanges, count) {
            1
        } else {
            0
        },
        handled: count,
    }
}

/// A first timeout settles how far the client goes.
pub proof fn lemma_handled_until_timeout(exchanges: Seq<ExchangeView>, i: int)
    requires
        first_timeout_at(exchanges, i),
    ensures
        handled_count(exchanges) == i + 1,
{
    let k = choose|k: int| first_timeout_at(exchanges, k);
    if i < k {
        assert(!times_out(exchanges[i]));
    } else if k < i {
        assert(!times_out(exchanges[k]));
    }
}

/// Without a timeout the client goes through every exchange.
pub proof fn lemma_handled_without_timeout(exchanges: Seq<ExchangeView>)
    requires
        forall|j: int| 0 <= j < exchanges.len() ==> !times_out(#[trigger] exchanges[j]),
    ensures
        handled_count(exchanges) == exchanges.len(),
{
    if exists|i: int| first_timeout_at(exchanges, i) {
        let i = choose|i: int| first_timeout_at(exchanges, i);
        assert(times_out(exchanges[i]));
    }
}

/// Whether one of the first `at + 1` exchanges fails is settled by the first
/// `at` of them and the one after.
pub proof fn lemma_any_failure_step(exchanges: Seq<ExchangeView>, at: int)
    requires
        0 <= at < exchanges.len(),
    ensures
        any_failure(exchanges, (at + 1) as nat) == (any_failure(exchanges, at as nat)
            || exchange_fails(exchanges[at])),
{
    if any_failure(exchanges, (at + 1) as nat) {
        let w = choose|i: int|
            0 <= i < (at + 1) as nat && i < exchanges.len() && exchange_fails(
                #[trigger] exchanges[i],
            );
        if w < at {
            assert(exchange_fails(exchanges[w]));
        }
    }
    if any_failure(exchanges, at as nat) {
        let w = choose|i: int|
            0 <= i < at as nat && i < exchanges.len() && exchange_fails(#[trigger] exchanges[i]);
        assert(exchange_fails(exchanges[w]));
    }
}

/// The event that the machine is fed for `outcome` when it is about to
/// write the command.
fn write_event(outcome: &Outcome) -> (event: Event)
    ensures
        event@ == match outcome@ {
            OutcomeView::WriteFailed(cause) => EventView::WriteFailed(cause),
            _ => EventView::Written,
        },
{
    match outcome {
        Outcome::WriteFailed(cause) => Event::WriteFailed(cause.clone()),
        _ => Event::Written,
    }
}

/// The event that the machine is fed for `outcome` when it waits for the
/// reply.
fn reply_event(outcome: &Outcome) -> (event: Event)
    ensures
        event@ == match outcome@ {
            OutcomeView::Replied(line) => EventView::Reply(line),
            _ => EventView::TimedOut,
        },
{
    match outcome {
        Outcome::Replied(line) => Event::Reply(line.clone()),
        _ => Event::TimedOut,
    }
}

/// The commands of `exchanges`, in order.
pub fn commands_in(exchanges: &Vec<Exchange>) -> (commands: Vec<String>)
    ensures
        texts(commands@) == commands_of(exchange_views(exchanges@)),
{
    let mut commands: Vec<String> = Vec::new();
    let mut i: usize = 0;
    while i < exchanges.len()
        invariant
            i <= exchanges.len(),
            commands@.len() == i,
            forall|j: int| 0 <= j < i ==> commands@[j]@ == exchanges@[j].command@,
        decreases exchanges.len() - i,
    {
        commands.push(exchanges[i].command.clone());
        i = i + 1;
    }
    assert(texts(commands@) =~= commands_of(exchange_views(exchanges@)));
    commands
}

/// Runs the dispatch loop over recorded exchanges in place of live pipes.
///
/// The machine is asked what to do and told, from the record, what came of
/// it, until it says to leave. The lines it printed on the way, the exit
/// code it left with and the number of commands it went through are those of
/// [`batch_report`].
pub fn replay(exchanges: &Vec<Exchange>) -> (report: Report)
    ensures
        report@ == batch_report(exchange_views(exchanges@)),
{
    let ghost xs = exchange_views(exchanges@);
    let mut dispatcher = Dispatcher::new(commands_in(exchanges));
    let mut lines: Vec<Line> = Vec::new();
    loop
        invariant
            xs == exchange_views(exchanges@),
            dispatcher@.commands == commands_of(xs),
            dispatcher@.wf(),
            forall|j: int| 0 <= j < dispatcher@.position ==> !times_out(#[trigger] xs[j]),
            dispatcher@.phase != Phase::SetupFailed,
            dispatcher@.phase == Phase::TimedOut ==> times_out(xs[dispatcher@.position as int]),
            dispatcher@.phase == Phase::Awaiting ==> !(xs[dispatcher@.position as int].outcome is WriteFailed),
            line_views(lines@) =~= Seq::new(
                printed_count(dispatcher@),
                |i: int| exchange_line(xs[i]),
            ),
            dispatcher@.failed == any_failure(xs, printed_count(dispatcher@)),
        decreases steps_left(dispatcher@),
    {
        let ghost before = dispatcher@;
        let ghost printed = line_views(lines@);
        let event = match dispatcher.next_action() {
            Action::Connect => Event::Connected,
            Action::Send(_) => write_event(&exchanges[dispatcher.position()].outcome),
            Action::Await(_) => reply_event(&exchanges[dispatcher.position()].outcome),
            Action::Exit(code) => {
                proof {
                    if before.phase == Phase::TimedOut {
                        lemma_handled_until_timeout(xs, before.position as int);
                    } else {
                        lemma_handled_without_timeout(xs);
                    }
                    assert(handled_count(xs) == printed_count(before));
                    assert(line_views(lines@) == batch_report(xs).lines);
                }
                let handled = lines.len();
                return Report { lines, exit_code: code, handled };
            },
        };
        let line = dispatcher.handle(event);
        match line {
            Some(printed_line) => {
                lines.push(printed_line);
                proof {
                    let p = before.position as int;
                    assert(printed_line@ == exchange_line(xs[p]));
                    assert(line_views(lines@) =~= printed.push(printed_line@));
                    lemma_any_failure_step(xs, p);
                }
            },
            None => {},
        }
    }
}

/// Every line of a report belongs to the exchange of the same position, and
/// there is one for each exchange gone through.
pub proof fn lemma_lines_follow_exchanges(exchanges: Seq<ExchangeView>)
    ensures
        batch_report(exchanges).handled <= exchanges.len(),
        batch_report(exchanges).lines.len() == batch_report(exchanges).handled,
        forall|i: int|
            0 <= i < batch_report(exchanges).handled ==> #[trigger] batch_report(exchanges).lines[i]
                == exchange_line(exchanges[i]),
{
    if exists|i: int| first_timeout_at(exchanges, i) {
        let i = choose|i: int| first_timeout_at(exchanges, i);
        lemma_handled_until_timeout(exchanges, i);
    }
}

/// A batch ends with exit code 0 exactly when no exchange that the client
/// went through failed; otherwise the code is 1.
pub proof fn lemma_exit_code(exchanges: Seq<ExchangeView>)
    ensures
        batch_report(exchanges).exit_code == 0 || batch_report(exchanges).exit_code == 1,
        batch_report(exchanges).exit_code == 0 <==> forall|i: int|
            0 <= i < handled_count(exchanges) && i < exchanges.len() ==> !exchange_fails(
                #[trigger] exchanges[i],
            ),
{
}

/// When every command is answered in time by a success reply, the client
/// prints one line per command on standard output, in the order of the
/// commands, each made of the command and the reply's message, and leaves
/// with exit code 0.
pub proof fn lemma_all_succeed(exchanges: Seq<ExchangeView>, replies: Seq<Seq<char>>)
    requires
        replies.len() == exchanges.len(),
        forall|i: int|
            0 <= i < exchanges.len() ==> (#[trigger] exchanges[i]).outcome == OutcomeView::Replied(
                replies[i],
            ),
        forall|i: int|
            0 <= i < replies.len() ==> classify_line(#[trigger] replies[i]).verdict
                == Verdict::Success,
    ensures
        batch_report(exchanges).handled == exchanges.len(),
        batch_report(exchanges).lines.len() == exchanges.len(),
        forall|i: int|
            0 <= i < exchanges.len() ==> #[trigger] batch_report(exchanges).lines[i] == (LineView {
                stream: Stream::Stdout,
                text: exchanges[i].command + ": "@ + classify_line(replies[i]).text,
            }),
        batch_report(exchanges).exit_code == 0,
{
    assert forall|j: int| 0 <= j < exchanges.len() implies !times_out(
        #[trigger] exchanges[j],
    ) by {
        assert(exchanges[j].outcome == OutcomeView::Replied(replies[j]));
    }
    lemma_handled_without_timeout(exchanges);
    assert forall|i: int| 0 <= i < exchanges.len() implies !exchange_fails(
        #[trigger] exchanges[i],
    ) by {
        assert(exchanges[i].outcome == OutcomeView::Replied(replies[i]));
    }
    assert forall|i: int| 0 <= i < exchanges.len() implies #[trigger] batch_report(
        exchanges,
    ).lines[i] == (LineView {
        stream: Stream::Stdout,
        text: exchanges[i].command + ": "@ + classify_line(replies[i]).text,
    }) by {
        assert(exchanges[i].outcome == OutcomeView::Replied(replies[i]));
    }
}

/// The reply `OK: done` is a success with the message `done`.
pub proof fn lemma_ok_done()
    ensures
        classify_line("OK: done"@).verdict == Verdict::Success,
        classify_line("OK: done"@).text == "done"@,
{
    reveal_strlit("OK: done");
    reveal_strlit("OK:");
    reveal_strlit("done");
    assert("OK: done"@ =~= "OK:"@ + seq![' '] + "done"@);
    assert(!has_space("OK:"@));
    lemma_split_joined("OK:"@, "done"@);
}

/// When every one of the commands is answered in time by `OK: done`, the
/// client prints as many lines as there are commands, all on standard
/// output and in the order of the commands, and leaves with exit code 0.
pub proof fn lemma_all_ok_done(exchanges: Seq<ExchangeView>)
    requires
        forall|i: int|
            0 <= i < exchanges.len() ==> (#[trigger] exchanges[i]).outcome == OutcomeView::Replied(
                "OK: done"@,
            ),
    ensures
        batch_report(exchanges).lines.len() == exchanges.len(),
        forall|i: int|
            0 <= i < exchanges.len() ==> #[trigger] batch_report(exchanges).lines[i] == (LineView {
                stream: Stream::Stdout,
                text: exchanges[i].command + ": "@ + "done"@,
            }),
        batch_report(exchanges).exit_code == 0,
{
    lemma_ok_done();
    let replies = Seq::new(exchanges.len(), |i: int| "OK: done"@);
    lemma_all_succeed(exchanges, replies);
    assert forall|i: int| 0 <= i < exchanges.len() implies #[trigger] batch_report(
        exchanges,
    ).lines[i] == (LineView {
        stream: Stream::Stdout,
        text: exchanges[i].command + ": "@ + "done"@,
    }) by {
        assert(replies[i] == "OK: done"@);
    }
}

/// A timeout ends the batch. Up to the first exchange that timed out the
/// client prints its line per exchange, the last of them the timeout
/// warning; it leaves with exit code 1; and nothing of what the record holds
/// after that exchange has any bearing on the report.
pub proof fn lemma_timeout_cuts_batch(exchanges: Seq<ExchangeView>, at: int)
    requires
        first_timeout_at(exchanges, at),
    ensures
        batch_report(exchanges).handled == at + 1,
        batch_report(exchanges).lines.len() == at + 1,
        batch_report(exchanges).lines[at] == timeout_line(),
        forall|i: int|
            0 <= i < at ==> #[trigger] batch_report(exchanges).lines[i] == exchange_line(
                exchanges[i],
            ) && !times_out(exchanges[i]),
        batch_report(exchanges).exit_code == 1,
        batch_report(exchanges) == batch_report(exchanges.take(at + 1)),
{
    lemma_handled_until_timeout(exchanges, at);
    assert(exchange_fails(exchanges[at]));
    let cut = exchanges.take(at + 1);
    assert(first_timeout_at(cut, at)) by {
        assert(cut[at] == exchanges[at]);
        assert forall|j: int| 0 <= j < at implies !times_out(#[trigger] cut[j]) by {
            assert(cut[j] == exchanges[j]);
        }
    }
    lemma_handled_until_timeout(cut, at);
    assert(exchange_fails(cut[at]));
    assert(batch_report(exchanges).lines =~= batch_report(cut).lines);
}

/// A reply without a space is printed whole, after its command, on standard
/// output, and does not count against the exit status.
pub proof fn lemma_spaceless_reply(command: Seq<char>, reply: Seq<char>)
    requires
        !has_space(reply),
    ensures
        exchange_line(ExchangeView { command, outcome: OutcomeView::Replied(reply) }) == (LineView {
            stream: Stream::Stdout,
            text: command + ": "@ + reply,
        }),
        !exchange_fails(ExchangeView { command, outcome: OutcomeView::Replied(reply) }),
{
    lemma_spaceless_line_is_unrecognized(reply);
}

/// The number of lines printed by the time the machine is in `session`.
spec fn printed_count(session: Session) -> nat {
    if session.phase == Phase::TimedOut {
        session.position + 1
    } else {
        session.position
    }
}

/// A bound on the number of events that `session` still takes in.
spec fn steps_left(session: Session) -> nat {
    match session.phase {
        Phase::Connecting => (2 * session.commands.len() + 1) as nat,
        Phase::Sending => (2 * (session.commands.len() - session.position)) as nat,
        Phase::Awaiting => (2 * (session.commands.len() - session.position) - 1) as nat,
        _ => 0,
    }
}

} // verus!
