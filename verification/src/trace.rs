//! Runs of the machine: what it prints and where it ends when it is fed a
//! whole sequence of events, and the proof that the events of a record lead
//! it to that record's report.

use crate::batch::{
    any_failure, batch_report, commands_of, exchange_fails, exchange_line, first_timeout_at,
    handled_count, lemma_any_failure_step, lemma_handled_until_timeout,
    lemma_handled_without_timeout, times_out, ExchangeView, OutcomeView,
};
use crate::dispatch::{ActionView, EventView, Phase, Session};
use crate::report::LineView;
use vstd::prelude::*;

verus! {

/// The state after `events` were taken in, one after the other.
pub open spec fn run(session: Session, events: Seq<EventView>) -> Session
    decreases events.len(),
{
    if events.len() == 0 {
        session
    } else {
        run(session.step(events.first()), events.drop_first())
    }
}

/// The lines printed while `events` were taken in, in the order of printing.
pub open spec fn printed(session: Session, events: Seq<EventView>) -> Seq<LineView>
    decreases events.len(),
{
    if events.len() == 0 {
        Seq::empty()
    } else {
        let rest = printed(session.step(events.first()), events.drop_first());
        match session.emits(events.first()) {
            Some(line) => seq![line] + rest,
            None => rest,
        }
    }
}

/// The events that an exchange stands for: a failed write alone, or a write
/// followed by the reply or by the timeout.
pub open spec fn exchange_events(exchange: ExchangeView) -> Seq<EventView> {
    match exchange.outcome {
        OutcomeView::WriteFailed(cause) => seq![EventView::WriteFailed(cause)],
        OutcomeView::Replied(line) => seq![EventView::Written, EventView::Reply(line)],
        OutcomeView::TimedOut => seq![EventView::Written, EventView::TimedOut],
    }
}

/// The events of the exchanges from position `from` on.
pub open spec fn events_from(exchanges: Seq<ExchangeView>, from: int) -> Seq<EventView>
    decreases exchanges.len() - from,
{
    if 0 <= from < exchanges.len() {
        exchange_events(exchanges[from]) + events_from(exchanges, from + 1)
    } else {
        Seq::empty()
    }
}

/// The events of a whole record: the return pipe is opened, then the
/// exchanges take place in their order. An empty record has no events.
pub open spec fn record_events(exchanges: Seq<ExchangeView>) -> Seq<EventView> {
    if exchanges.len() == 0 {
        Seq::empty()
    } else {
        seq![EventView::Connected] + events_from(exchanges, 0)
    }
}

/// Taking in a sequence of events is taking in the first and then the rest.
pub proof fn lemma_run_first(session: Session, event: EventView, rest: Seq<EventView>)
    ensures
        run(session, seq![event] + rest) == run(session.step(event), rest),
        printed(session, seq![event] + rest) == match session.emits(event) {
            Some(line) => seq![line] + printed(session.step(event), rest),
            None => printed(session.step(event), rest),
        },
{
    let all = seq![event] + rest;
    assert(all.first() == event);
    assert(all.drop_first() =~= rest);
}

/// Once a batch is finished, has timed out or has failed to set up, no
/// sequence of events moves the machine or makes it print.
pub proof fn lemma_end_is_final(session: Session, events: Seq<EventView>)
    requires
        session.phase == Phase::Finished || session.phase == Phase::TimedOut || session.phase
            == Phase::SetupFailed,
    ensures
        run(session, events) == session,
        printed(session, events) == Seq::<LineView>::empty(),
    decreases events.len(),
{
    if events.len() > 0 {
        lemma_end_is_final(session, events.drop_first());
    }
}

/// Failure is permanent over any run: a batch that has failed stays failed
/// whatever events follow.
pub proof fn lemma_failure_outlasts_run(session: Session, events: Seq<EventView>)
    requires
        session.failed,
    ensures
        run(session, events).failed,
    decreases events.len(),
{
    if events.len() > 0 {
        lemma_failure_outlasts_run(session.step(events.first()), events.drop_first());
    }
}

/// The run from the point where the first `from` exchanges are behind and the
/// next command is about to be sent.
proof fn lemma_run_from(exchanges: Seq<ExchangeView>, session: Session, from: int)
    requires
        session.wf(),
        session.commands == commands_of(exchanges),
        session.position == from,
        0 <= from <= exchanges.len(),
        session.phase == Phase::Sending || session.phase == Phase::Finished,
        forall|j: int| 0 <= j < from ==> !times_out(#[trigger] exchanges[j]),
        session.failed == any_failure(exchanges, from as nat),
    ensures
        from <= handled_count(exchanges) <= exchanges.len(),
        printed(session, events_from(exchanges, from)) == Seq::new(
            (handled_count(exchanges) - from) as nat,
            |i: int| exchange_line(exchanges[from + i]),
        ),
        ({
            let end = run(session, events_from(exchanges, from));
            &&& end.wf()
            &&& end.failed == any_failure(exchanges, handled_count(exchanges))
            &&& end.phase == Phase::Finished || end.phase == Phase::TimedOut
            &&& end.phase == Phase::TimedOut <==> exists|i: int| first_timeout_at(exchanges, i)
            &&& end.phase == Phase::TimedOut ==> end.position + 1 == handled_count(exchanges)
            &&& end.phase == Phase::Finished ==> end.position == handled_count(exchanges)
        }),
    decreases exchanges.len() - from,
{
    let events = events_from(exchanges, from);
    let count = handled_count(exchanges);
    if from == exchanges.len() {
        lemma_handled_without_timeout(exchanges);
        if exists|i: int| first_timeout_at(exchanges, i) {
            let i = choose|i: int| first_timeout_at(exchanges, i);
            assert(times_out(exchanges[i]));
        }
        assert(printed(session, events) =~= Seq::new(
            (count - from) as nat,
            |i: int| exchange_line(exchanges[from + i]),
        ));
    } else {
        let exchange = exchanges[from];
        let rest = events_from(exchanges, from + 1);
        lemma_any_failure_step(exchanges, from);
        match exchange.outcome {
            OutcomeView::WriteFailed(cause) => {
                let next = session.step(EventView::WriteFailed(cause));
                assert(events =~= seq![EventView::WriteFailed(cause)] + rest);
                lemma_run_first(session, EventView::WriteFailed(cause), rest);
                lemma_run_from(exchanges, next, from + 1);
                assert(printed(session, events) =~= Seq::new(
                    (count - from) as nat,
                    |i: int| exchange_line(exchanges[from + i]),
                ));
            },
            OutcomeView::Replied(line) => {
                let waiting = session.step(EventView::Written);
                let next = waiting.step(EventView::Reply(line));
                assert(events =~= seq![EventView::Written] + (seq![EventView::Reply(line)]
                    + rest));
                lemma_run_first(session, EventView::Written, seq![EventView::Reply(line)] + rest);
                lemma_run_first(waiting, EventView::Reply(line), rest);
                lemma_run_from(exchanges, next, from + 1);
                assert(printed(session, events) =~= Seq::new(
                    (count - from) as nat,
                    |i: int| exchange_line(exchanges[from + i]),
                ));
            },
            OutcomeView::TimedOut => {
                let waiting = session.step(EventView::Written);
                let ended = waiting.step(EventView::TimedOut);
                assert(events =~= seq![EventView::Written] + (seq![EventView::TimedOut] + rest));
                lemma_run_first(session, EventView::Written, seq![EventView::TimedOut] + rest);
                lemma_run_first(waiting, EventView::TimedOut, rest);
                lemma_end_is_final(ended, rest);
                assert(first_timeout_at(exchanges, from));
                lemma_handled_until_timeout(exchanges, from);
                assert(exchange_fails(exchanges[from]));
                assert(printed(session, events) =~= Seq::new(
                    (count - from) as nat,
                    |i: int| exchange_line(exchanges[from + i]),
                ));
            },
        }
    }
}

/// The machine, started on the commands of a record and fed the record's
/// events, prints the lines of the record's report, in their order, and
/// ends by saying to leave with the report's exit code. It ends either
/// finished, with every command behind it, or timed out at the last
/// exchange that the report counts.
pub proof fn lemma_machine_follows_record(exchanges: Seq<ExchangeView>)
    ensures
        printed(Session::start(commands_of(exchanges)), record_events(exchanges)) == batch_report(
            exchanges,
        ).lines,
        run(Session::start(commands_of(exchanges)), record_events(exchanges)).action()
            == ActionView::Exit(batch_report(exchanges).exit_code),
        run(Session::start(commands_of(exchanges)), record_events(exchanges)).phase
            == Phase::Finished || run(
            Session::start(commands_of(exchanges)),
            record_events(exchanges),
        ).phase == Phase::TimedOut,
        run(Session::start(commands_of(exchanges)), record_events(exchanges)).phase
            == Phase::TimedOut <==> exists|i: int| first_timeout_at(exchanges, i),
{
    let start = Session::start(commands_of(exchanges));
    let report = batch_report(exchanges);
    if exchanges.len() == 0 {
        lemma_handled_without_timeout(exchanges);
        assert(printed(start, record_events(exchanges)) =~= report.lines);
        assert(!any_failure(exchanges, 0));
        if exists|i: int| first_timeout_at(exchanges, i) {
            let i = choose|i: int| first_timeout_at(exchanges, i);
            assert(times_out(exchanges[i]));
        }
    } else {
        let rest = events_from(exchanges, 0);
        let ready = start.step(EventView::Connected);
        lemma_run_first(start, EventView::Connected, rest);
        assert(!any_failure(exchanges, 0));
        lemma_run_from(exchanges, ready, 0);
        assert(printed(start, record_events(exchanges)) =~= report.lines);
    }
}

} // verus!
