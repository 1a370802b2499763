use vstd::prelude::*;

use crate::collector::{utf8_lossy, SkimItemReaderOption};
use crate::lines::text_lines;
use crate::reader::{line_events, reader_run, ReaderEventView, ReaderPhase, ReaderTrace};
use crate::teardown::{
    error_items, failed, teardown_run, ExitCheck, TeardownEventView, TeardownPhase, TeardownTrace,
};

verus! {

/// Whether the bytes end with a carriage return.
pub open spec fn ends_with_cr(b: Seq<u8>) -> bool {
    b.len() > 0 && b.last() == 13
}

proof fn lemma_line_events_run(opt: SkimItemReaderOption, lines: Seq<Seq<u8>>)
    ensures
        reader_run(opt, line_events(lines)) == (ReaderTrace {
            phase: ReaderPhase::Reading,
            pushed: Seq::new(lines.len(), |i: int| opt.chunk_item(lines[i].push(10))),
            delivered: lines.len(),
            stops: 0,
        }),
    decreases lines.len(),
{
    if lines.len() > 0 {
        let prefix = lines.drop_last();
        lemma_line_events_run(opt, prefix);
        let chunk = ReaderEventView::Chunk(lines.last().push(10));
        let events = line_events(lines);
        assert(events.drop_last() == line_events(prefix).push(chunk));
        assert(events.drop_last().drop_last() == line_events(prefix));
        let t0 = reader_run(opt, line_events(prefix));
        let t1 = reader_run(opt, events.drop_last());
        assert(t1.pushed == t0.pushed.push(opt.chunk_item(lines.last().push(10))));
        assert(t0.pushed.push(opt.chunk_item(lines.last().push(10))) =~= Seq::new(
            lines.len(),
            |i: int| opt.chunk_item(lines[i].push(10)),
        ));
    } else {
        assert(line_events(lines) == Seq::<ReaderEventView>::empty());
        assert(Seq::new(lines.len(), |i: int| opt.chunk_item(lines[i].push(10)))
            =~= Seq::<(Seq<char>, Seq<char>)>::empty());
    }
}

/// A command that prints `lines`, each ended by a newline, and ends its
/// output, read by a consumer that takes every item: the reader pushes
/// exactly one item per line, in the order printed, then signals stop once.
/// With the whole line shown and escape sequences left alone, each item
/// shows its line as decoded.
pub proof fn lemma_lines_in_order(opt: SkimItemReaderOption, lines: Seq<Seq<u8>>)
    requires
        forall|i: int| 0 <= i < lines.len() ==> !ends_with_cr(#[trigger] lines[i]),
    ensures
        ({
            let t = reader_run(opt, line_events(lines).push(ReaderEventView::EndOfStream));
            &&& t.phase == ReaderPhase::Stopped
            &&& t.stops == 1
            &&& t.pushed.len() == lines.len()
            &&& forall|i: int|
                0 <= i < lines.len() ==> #[trigger] t.pushed[i] == opt.chunk_item(
                    lines[i].push(10),
                )
            &&& (opt.transform_fields@.len() == 0 && !opt.use_ansi_color) ==> forall|i: int|
                0 <= i < lines.len() ==> (#[trigger] t.pushed[i]).0 == utf8_lossy(lines[i])
        }),
{
    lemma_line_events_run(opt, lines);
    let events = line_events(lines).push(ReaderEventView::EndOfStream);
    assert(events.drop_last() == line_events(lines));
    assert forall|i: int| 0 <= i < lines.len() implies lines[i].push(10).take(
        lines[i].len() as int,
    ) == lines[i] by {
        assert(!ends_with_cr(lines[i]));
        assert(lines[i].push(10).take(lines[i].len() as int) =~= lines[i]);
        assert(lines[i].push(10).drop_last() =~= lines[i]);
    }
}

/// Backpressure: whatever happens, the reader has at most one item waiting
/// to be taken by the consumer. It asks for the next chunk only once every
/// item it pushed was taken, so output is never read further ahead of the
/// consumer than the output channel holds, plus one item.
pub proof fn lemma_one_push_in_flight(opt: SkimItemReaderOption, events: Seq<ReaderEventView>)
    ensures
        ({
            let t = reader_run(opt, events);
            &&& t.pushed.len() <= t.delivered + 1
            &&& t.phase == ReaderPhase::Reading ==> t.pushed.len() == t.delivered
            &&& t.phase == ReaderPhase::Pushing ==> t.pushed.len() == t.delivered + 1
        }),
    decreases events.len(),
{
    if events.len() > 0 {
        lemma_one_push_in_flight(opt, events.drop_last());
    }
}

/// The reader signals stop exactly once, when it stops, and once stopped it
/// pushes nothing more, whatever happens next.
pub proof fn lemma_reader_stops_once(
    opt: SkimItemReaderOption,
    events: Seq<ReaderEventView>,
    more: Seq<ReaderEventView>,
)
    ensures
        reader_run(opt, events).stops <= 1,
        reader_run(opt, events).stops == 1 <==> reader_run(opt, events).phase
            == ReaderPhase::Stopped,
        reader_run(opt, events).phase == ReaderPhase::Stopped ==> reader_run(opt, events + more)
            == reader_run(opt, events),
    decreases events.len() + more.len(),
{
    if more.len() > 0 {
        lemma_reader_stops_once(opt, events, more.drop_last());
        assert((events + more).drop_last() == events + more.drop_last());
    } else {
        assert(events + more == events);
        if events.len() > 0 {
            lemma_reader_stops_once(opt, events.drop_last(), more);
        }
    }
}

/// Whether a teardown event is the cancellation signal.
pub open spec fn is_signal(e: TeardownEventView) -> bool {
    e is Signal
}

/// Cancellation: the teardown worker has the command killed as soon as the
/// first signal arrives, and only then; it kills it at most once, finishes
/// at most once and only after the kill, and once finished replays nothing
/// more, whatever happens next.
pub proof fn lemma_teardown_kills_once(
    show_error: bool,
    events: Seq<TeardownEventView>,
    more: Seq<TeardownEventView>,
)
    ensures
        ({
            let t = teardown_run(show_error, events);
            &&& t.kills <= 1
            &&& t.finishes <= 1
            &&& t.kills == 1 <==> exists|i: int| 0 <= i < events.len() && is_signal(
                #[trigger] events[i],
            )
            &&& t.kills == 1 <==> t.phase != TeardownPhase::Waiting
            &&& t.finishes == 1 <==> t.phase == TeardownPhase::Done
            &&& t.phase == TeardownPhase::Done ==> teardown_run(show_error, events + more) == t
        }),
    decreases events.len() + more.len(),
{
    if more.len() > 0 {
        lemma_teardown_kills_once(show_error, events, more.drop_last());
        assert((events + more).drop_last() == events + more.drop_last());
    } else {
        assert(events + more == events);
        if events.len() > 0 {
            let prefix = events.drop_last();
            lemma_teardown_kills_once(show_error, prefix, more);
            if exists|i: int| 0 <= i < prefix.len() && is_signal(#[trigger] prefix[i]) {
                let i = choose|i: int| 0 <= i < prefix.len() && is_signal(#[trigger] prefix[i]);
                assert(events[i] == prefix[i]);
            }
            if exists|i: int| 0 <= i < events.len() && is_signal(#[trigger] events[i]) {
                let i = choose|i: int| 0 <= i < events.len() && is_signal(#[trigger] events[i]);
                if i < prefix.len() {
                    assert(prefix[i] == events[i]);
                }
            }
        }
    }
}

/// How many of a collector's two workers have released their hold on the
/// liveness counter: the reader when it signals stop, the teardown worker
/// when it finishes.
pub open spec fn released(r: ReaderTrace, t: TeardownTrace) -> nat {
    r.stops + t.finishes
}

/// Quiescence: once the reader has stopped and the teardown worker is done,
/// both workers have released their hold on the liveness counter, each
/// exactly once, so the counter is back where it was before the start; the
/// command was killed on the way.
pub proof fn lemma_quiescence(
    opt: SkimItemReaderOption,
    reader_events: Seq<ReaderEventView>,
    teardown_events: Seq<TeardownEventView>,
)
    requires
        reader_run(opt, reader_events).phase == ReaderPhase::Stopped,
        teardown_run(opt.show_error, teardown_events).phase == TeardownPhase::Done,
    ensures
        released(reader_run(opt, reader_events), teardown_run(opt.show_error, teardown_events))
            == 2,
        teardown_run(opt.show_error, teardown_events).kills == 1,
{
    lemma_reader_stops_once(opt, reader_events, Seq::empty());
    lemma_teardown_kills_once(opt.show_error, teardown_events, Seq::empty());
}

/// Error replay: with `show_error` set, when a command prints `lines` and
/// then fails, the stream holds the items of its lines, in order, followed
/// by one plain item per line of its error output.
pub proof fn lemma_errors_follow_output(
    opt: SkimItemReaderOption,
    lines: Seq<Seq<u8>>,
    check: ExitCheck,
    errors: Seq<u8>,
)
    requires
        opt.show_error,
        failed(check),
        forall|i: int| 0 <= i < lines.len() ==> !ends_with_cr(#[trigger] lines[i]),
    ensures
        ({
            let r = reader_run(opt, line_events(lines).push(ReaderEventView::EndOfStream));
            let t = teardown_run(
                opt.show_error,
                seq![
                    TeardownEventView::Signal,
                    TeardownEventView::Reaped(check),
                    TeardownEventView::ErrorOutput(errors),
                ],
            );
            let stream = r.pushed + t.replayed;
            let errs = text_lines(utf8_lossy(errors));
            &&& t.phase == TeardownPhase::Done
            &&& stream.len() == lines.len() + errs.len()
            &&& forall|i: int|
                0 <= i < lines.len() ==> #[trigger] stream[i] == opt.chunk_item(lines[i].push(10))
            &&& forall|j: int|
                0 <= j < errs.len() ==> #[trigger] stream[lines.len() + j] == (errs[j], errs[j])
        }),
{
    lemma_lines_in_order(opt, lines);
    let events = seq![
        TeardownEventView::Signal,
        TeardownEventView::Reaped(check),
        TeardownEventView::ErrorOutput(errors),
    ];
    assert(events.drop_last() == seq![TeardownEventView::Signal, TeardownEventView::Reaped(check)]);
    assert(events.drop_last().drop_last() == seq![TeardownEventView::Signal]);
    assert(events.drop_last().drop_last().drop_last() == Seq::<TeardownEventView>::empty());
    let t0 = teardown_run(opt.show_error, events.drop_last().drop_last().drop_last());
    assert(t0.phase == TeardownPhase::Waiting);
    let t1 = teardown_run(opt.show_error, events.drop_last().drop_last());
    assert(t1.phase == TeardownPhase::Reaping && t1.replayed == Seq::<(Seq<char>, Seq<char>)>::empty());
    let t2 = teardown_run(opt.show_error, events.drop_last());
    assert(t2.phase == TeardownPhase::Collecting && t2.replayed == t1.replayed);
    let t = teardown_run(opt.show_error, events);
    assert(t.replayed == t2.replayed + error_items(errors));
    assert(t.replayed =~= error_items(errors));
}

} // verus!
