use vstd::prelude::*;

use crate::collector::SkimItemReaderOption;
use crate::item::Item;

verus! {

/// Where the reader worker stands.
#[derive(Clone, Copy, Debug, PartialEq, Eq, Structural)]
pub enum ReaderPhase {
    /// Waiting for the next chunk of output.
    Reading,
    /// Waiting for the item of the last chunk to be taken by the consumer.
    Pushing,
    /// Done: it has asked for teardown and does nothing more.
    Stopped,
}

/// What happened to the reader worker's last request.
pub enum ReaderEvent {
    /// A chunk of output was read, up to and including its line ending.
    Chunk(Vec<u8>),
    /// The command's output ended.
    EndOfStream,
    /// The read failed; the attempt is skipped.
    ReadFailed,
    /// The consumer took the item.
    Delivered,
    /// The consumer is gone.
    Rejected,
}

/// A reader event as the model sees it.
pub enum ReaderEventView {
    Chunk(Seq<u8>),
    EndOfStream,
    ReadFailed,
    Delivered,
    Rejected,
}

impl View for ReaderEvent {
    type V = ReaderEventView;

    open spec fn view(&self) -> ReaderEventView {
        match self {
            ReaderEvent::Chunk(b) => ReaderEventView::Chunk(b@),
            ReaderEvent::EndOfStream => ReaderEventView::EndOfStream,
            ReaderEvent::ReadFailed => ReaderEventView::ReadFailed,
            ReaderEvent::Delivered => ReaderEventView::Delivered,
            ReaderEvent::Rejected => ReaderEventView::Rejected,
        }
    }
}

/// What the reader worker asks to be done next.
pub enum ReaderAction {
    /// Read the next chunk of output.
    ReadNext,
    /// Push the item onto the output channel, waiting while it is full.
    Push(Item),
    /// Send the cancellation signal, so that teardown runs, and exit.
    SignalStop,
    /// Nothing: the worker has stopped.
    Idle,
}

/// A reader action as the model sees it.
pub enum ReaderActionView {
    ReadNext,
    Push((Seq<char>, Seq<char>)),
    SignalStop,
    Idle,
}

impl View for ReaderAction {
    type V = ReaderActionView;

    open spec fn view(&self) -> ReaderActionView {
        match self {
            ReaderAction::ReadNext => ReaderActionView::ReadNext,
            ReaderAction::Push(i) => ReaderActionView::Push(i@),
            ReaderAction::SignalStop => ReaderActionView::SignalStop,
            ReaderAction::Idle => ReaderActionView::Idle,
        }
    }
}

/// One decision of the reader worker: its next phase and its next action.
/// A chunk becomes an item to push; the end of output, a refused push or an
/// event out of turn stops the worker; a failed read is retried.
pub open spec fn reader_step(
    opt: SkimItemReaderOption,
    phase: ReaderPhase,
    event: ReaderEventView,
) -> (ReaderPhase, ReaderActionView) {
    match phase {
        ReaderPhase::Reading => match event {
            ReaderEventView::Chunk(b) => (
                ReaderPhase::Pushing,
                ReaderActionView::Push(opt.chunk_item(b)),
            ),
            ReaderEventView::ReadFailed => (ReaderPhase::Reading, ReaderActionView::ReadNext),
            _ => (ReaderPhase::Stopped, ReaderActionView::SignalStop),
        },
        ReaderPhase::Pushing => match event {
            ReaderEventView::Delivered => (ReaderPhase::Reading, ReaderActionView::ReadNext),
            _ => (ReaderPhase::Stopped, ReaderActionView::SignalStop),
        },
        ReaderPhase::Stopped => (ReaderPhase::Stopped, ReaderActionView::Idle),
    }
}

/// The reader worker of a collector: it reads the command's output line by
/// line and pushes one item per line, in order.
pub struct ReaderWorker {
    phase: ReaderPhase,
}

impl ReaderWorker {
    /// The phase the worker is in.
    pub closed spec fn state(&self) -> ReaderPhase {
        self.phase
    }

    /// A worker about to read its first chunk.
    pub fn new() -> (r: Self)
        ensures
            r.state() == ReaderPhase::Reading,
    {
        ReaderWorker { phase: ReaderPhase::Reading }
    }

    /// The phase the worker is in.
    pub fn phase(&self) -> (r: ReaderPhase)
        ensures
            r == self.state(),
    {
        self.phase
    }

    /// Takes in what happened to the last request and decides the next one.
    pub fn step(&mut self, opt: &SkimItemReaderOption, event: ReaderEvent) -> (r: ReaderAction)
        ensures
            (final(self).state(), r@) == reader_step(*opt, old(self).state(), event@),
    {
        match self.phase {
            ReaderPhase::Reading => match event {
                ReaderEvent::Chunk(b) => {
                    self.phase = ReaderPhase::Pushing;
                    ReaderAction::Push(opt.item_of_chunk(b))
                },
                ReaderEvent::ReadFailed => ReaderAction::ReadNext,
                _ => {
                    self.phase = ReaderPhase::Stopped;
                    ReaderAction::SignalStop
                },
            },
            ReaderPhase::Pushing => match event {
                ReaderEvent::Delivered => {
                    self.phase = ReaderPhase::Reading;
                    ReaderAction::ReadNext
                },
                _ => {
                    self.phase = ReaderPhase::Stopped;
                    ReaderAction::SignalStop
                },
            },
            ReaderPhase::Stopped => ReaderAction::Idle,
        }
    }
}

/// What a run of the reader worker has done so far.
pub struct ReaderTrace {
    /// The phase it is in.
    pub phase: ReaderPhase,
    /// The items it has asked to push, in order.
    pub pushed: Seq<(Seq<char>, Seq<char>)>,
    /// How many of its pushes were taken by the consumer.
    pub delivered: nat,
    /// How many times it has signalled stop.
    pub stops: nat,
}

/// The run of the reader worker over a sequence of events, from its start.
pub open spec fn reader_run(opt: SkimItemReaderOption, events: Seq<ReaderEventView>) -> ReaderTrace
    decreases events.len(),
{
    if events.len() == 0 {
        ReaderTrace { phase: ReaderPhase::Reading, pushed: Seq::empty(), delivered: 0, stops: 0 }
    } else {
        let t = reader_run(opt, events.drop_last());
        let (phase, action) = reader_step(opt, t.phase, events.last());
        ReaderTrace {
            phase,
            pushed: match action {
                ReaderActionView::Push(i) => t.pushed.push(i),
                _ => t.pushed,
            },
            delivered: if t.phase == ReaderPhase::Pushing && events.last() is Delivered {
                t.delivered + 1
            } else {
                t.delivered
            },
            stops: if action is SignalStop {
                t.stops + 1
            } else {
                t.stops
            },
        }
    }
}

/// The events of a command printing `lines`, each ended by a newline, to a
/// consumer that takes every item.
pub open spec fn line_events(lines: Seq<Seq<u8>>) -> Seq<ReaderEventView>
    decreases lines.len(),
{
    if lines.len() == 0 {
        Seq::empty()
    } else {
        line_events(lines.drop_last()) + seq![
            ReaderEventView::Chunk(lines.last().push(10)),
            ReaderEventView::Delivered,
        ]
    }
}

} // verus!
