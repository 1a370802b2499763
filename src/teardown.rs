use vstd::prelude::*;

use crate::collector::{decode_lossy, utf8_lossy};
use crate::item::Item;
use crate::lines::{split_lines, text_lines};

verus! {

/// What a look at the command's exit status found once it was reaped.
#[derive(Clone, Copy, Debug, PartialEq, Eq, Structural)]
pub enum ExitCheck {
    /// It exited; `true` when it succeeded.
    Exited(bool),
    /// It has not exited yet.
    StillRunning,
    /// The status could not be read.
    Unknown,
}

/// Whether the check counts as a failure of the command: an unsuccessful
/// exit, or none yet; an unreadable status is not.
pub open spec fn failed(check: ExitCheck) -> bool {
    match check {
        ExitCheck::Exited(ok) => !ok,
        ExitCheck::StillRunning => true,
        ExitCheck::Unknown => false,
    }
}

/// Where the teardown worker stands.
#[derive(Clone, Copy, Debug, PartialEq, Eq, Structural)]
pub enum TeardownPhase {
    /// Waiting for the cancellation signal.
    Waiting,
    /// The command was told to stop; waiting for its exit.
    Reaping,
    /// Waiting for the command's error output.
    Collecting,
    /// Done: it has released the command and does nothing more.
    Done,
}

/// What happened to the teardown worker's last request.
pub enum TeardownEvent {
    /// A cancellation signal arrived.
    Signal,
    /// The command was killed and reaped.
    Reaped(ExitCheck),
    /// The command's error output, as bytes.
    ErrorOutput(Vec<u8>),
}

/// A teardown event as the model sees it.
pub enum TeardownEventView {
    Signal,
    Reaped(ExitCheck),
    ErrorOutput(Seq<u8>),
}

impl View for TeardownEvent {
    type V = TeardownEventView;

    open spec fn view(&self) -> TeardownEventView {
        match self {
            TeardownEvent::Signal => TeardownEventView::Signal,
            TeardownEvent::Reaped(c) => TeardownEventView::Reaped(*c),
            TeardownEvent::ErrorOutput(b) => TeardownEventView::ErrorOutput(b@),
        }
    }
}

/// What the teardown worker asks to be done next.
pub enum TeardownAction {
    /// Kill the command and wait for it to exit.
    Kill,
    /// Read the command's error output.
    ReadErrors,
    /// Push these items, whether or not the consumer takes them, then exit.
    Finish(Vec<Item>),
    /// Nothing.
    Idle,
}

/// A teardown action as the model sees it.
pub enum TeardownActionView {
    Kill,
    ReadErrors,
    Finish(Seq<(Seq<char>, Seq<char>)>),
    Idle,
}

impl View for TeardownAction {
    type V = TeardownActionView;

    open spec fn view(&self) -> TeardownActionView {
        match self {
            TeardownAction::Kill => TeardownActionView::Kill,
            TeardownAction::ReadErrors => TeardownActionView::ReadErrors,
            TeardownAction::Finish(items) => TeardownActionView::Finish(
                items@.map_values(|i: Item| i@),
            ),
            TeardownAction::Idle => TeardownActionView::Idle,
        }
    }
}

/// The items replaying an error output: one plain item per line.
pub open spec fn error_items(output: Seq<u8>) -> Seq<(Seq<char>, Seq<char>)> {
    text_lines(utf8_lossy(output)).map_values(|l: Seq<char>| (l, l))
}

/// Turns a command's error output into one plain item per line.
pub fn error_lines_to_items(output: &Vec<u8>) -> (r: Vec<Item>)
    ensures
        r@.map_values(|i: Item| i@) == error_items(output@),
{
    let text = decode_lossy(output);
    let lines = split_lines(text.as_str());
    let ghost views = lines@.map_values(|l: String| l@);
    let mut items: Vec<Item> = Vec::new();
    let mut k: usize = 0;
    while k < lines.len()
        invariant
            k <= lines@.len(),
            views == lines@.map_values(|l: String| l@),
            views == text_lines(utf8_lossy(output@)),
            items@.map_values(|i: Item| i@) == views.take(k as int).map_values(
                |l: Seq<char>| (l, l),
            ),
        decreases lines@.len() - k,
    {
        let ghost before = items@;
        items.push(Item::plain(lines[k].clone()));
        assert(items@.map_values(|i: Item| i@) == before.map_values(|i: Item| i@).push(
            (views[k as int], views[k as int]),
        ));
        assert(views.take(k + 1) == views.take(k as int).push(views[k as int]));
        k += 1;
    }
    assert(views.take(k as int) == views);
    items
}

/// One decision of the teardown worker: its next phase and its next action.
/// The first signal has the command killed; a second one changes nothing.
/// Once the command is reaped, its error output is asked for when
/// `show_error` is set and the command failed; then the worker finishes.
pub open spec fn teardown_step(
    show_error: bool,
    phase: TeardownPhase,
    event: TeardownEventView,
) -> (TeardownPhase, TeardownActionView) {
    match phase {
        TeardownPhase::Waiting => match event {
            TeardownEventView::Signal => (TeardownPhase::Reaping, TeardownActionView::Kill),
            _ => (TeardownPhase::Waiting, TeardownActionView::Idle),
        },
        TeardownPhase::Reaping => match event {
            TeardownEventView::Reaped(c) => if show_error && failed(c) {
                (TeardownPhase::Collecting, TeardownActionView::ReadErrors)
            } else {
                (TeardownPhase::Done, TeardownActionView::Finish(Seq::empty()))
            },
            _ => (TeardownPhase::Reaping, TeardownActionView::Idle),
        },
        TeardownPhase::Collecting => match event {
            TeardownEventView::ErrorOutput(b) => (
                TeardownPhase::Done,
                TeardownActionView::Finish(error_items(b)),
            ),
            _ => (TeardownPhase::Collecting, TeardownActionView::Idle),
        },
        TeardownPhase::Done => (TeardownPhase::Done, TeardownActionView::Idle),
    }
}

/// The teardown worker of a collector: once signalled, it kills the command
/// and, when asked to, replays the error output of a failed command.
pub struct TeardownWorker {
    phase: TeardownPhase,
    show_error: bool,
}

impl TeardownWorker {
    /// The phase the worker is in.
    pub closed spec fn state(&self) -> TeardownPhase {
        self.phase
    }

    /// Whether the worker replays the error output of a failed command.
    pub closed spec fn replays_errors(&self) -> bool {
        self.show_error
    }

    /// A worker waiting for the cancellation signal.
    pub fn new(show_error: bool) -> (r: Self)
        ensures
            r.state() == TeardownPhase::Waiting,
            r.replays_errors() == show_error,
    {
        TeardownWorker { phase: TeardownPhase::Waiting, show_error }
    }

    /// The phase the worker is in.
    pub fn phase(&self) -> (r: TeardownPhase)
        ensures
            r == self.state(),
    {
        self.phase
    }

    /// Takes in what happened to the last request and decides the next one.
    pub fn step(&mut self, event: TeardownEvent) -> (r: TeardownAction)
        ensures
            final(self).replays_errors() == old(self).replays_errors(),
            (final(self).state(), r@) == teardown_step(
                old(self).replays_errors(),
                old(self).state(),
                event@,
            ),
    {
        match self.phase {
            TeardownPhase::Waiting => match event {
                TeardownEvent::Signal => {
                    self.phase = TeardownPhase::Reaping;
                    TeardownAction::Kill
                },
                _ => TeardownAction::Idle,
            },
            TeardownPhase::Reaping => match event {
                TeardownEvent::Reaped(c) => {
                    let failure = match c {
                        ExitCheck::Exited(ok) => !ok,
                        ExitCheck::StillRunning => true,
                        ExitCheck::Unknown => false,
                    };
                    if self.show_error && failure {
                        self.phase = TeardownPhase::Collecting;
                        TeardownAction::ReadErrors
                    } else {
                        self.phase = TeardownPhase::Done;
                        let none: Vec<Item> = Vec::new();
                        assert(none@.map_values(|i: Item| i@) == Seq::<(Seq<char>, Seq<char>)>::empty());
                        TeardownAction::Finish(none)
                    }
                },
                _ => TeardownAction::Idle,
            },
            TeardownPhase::Collecting => match event {
                TeardownEvent::ErrorOutput(b) => {
                    self.phase = TeardownPhase::Done;
                    TeardownAction::Finish(error_lines_to_items(&b))
                },
                _ => TeardownAction::Idle,
            },
            TeardownPhase::Done => TeardownAction::Idle,
        }
    }
}

/// What a run of the teardown worker has done so far.
pub struct TeardownTrace {
    /// The phase it is in.
    pub phase: TeardownPhase,
    /// How many times it has had the command killed.
    pub kills: nat,
    /// How many times it has finished.
    pub finishes: nat,
    /// The items it has replayed, in order.
    pub replayed: Seq<(Seq<char>, Seq<char>)>,
}

/// The run of the teardown worker over a sequence of events, from its start.
pub open spec fn teardown_run(show_error: bool, events: Seq<TeardownEventView>) -> TeardownTrace
    decreases events.len(),
{
    if events.len() == 0 {
        TeardownTrace {
            phase: TeardownPhase::Waiting,
            kills: 0,
            finishes: 0,
            replayed: Seq::empty(),
        }
    } else {
        let t = teardown_run(show_error, events.drop_last());
        let (phase, action) = teardown_step(show_error, t.phase, events.last());
        TeardownTrace {
            phase,
            kills: if action is Kill {
                t.kills + 1
            } else {
                t.kills
            },
            finishes: if action is Finish {
                t.finishes + 1
            } else {
                t.finishes
            },
            replayed: match action {
                TeardownActionView::Finish(items) => t.replayed + items,
                _ => t.replayed,
            },
        }
    }
}

} // verus!
