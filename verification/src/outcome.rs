//! What a whole capture pass comes to, stated over what became of each
//! window.

use vstd::prelude::*;
use crate::capture::{CaptureError, EventModel, PassModel, Phase};
use crate::evidence::EvidenceModel;

verus! {

/// What became of one window.
pub enum WindowOutcome {
    /// Its dump could not be made.
    DumpFailed,
    /// Its dump could not be converted.
    ConversionFailed,
    /// Its image could not be read.
    Unreadable,
    /// Its image gave nothing worth keeping.
    Rejected,
    /// Its image gave this evidence.
    Captured(EvidenceModel),
}

impl WindowOutcome {
    /// The events that a pass is told of for a window with this outcome.
    pub open spec fn events(self) -> Seq<EventModel> {
        match self {
            WindowOutcome::DumpFailed => seq![EventModel::DumpFailed],
            WindowOutcome::ConversionFailed => seq![
                EventModel::Dumped,
                EventModel::ConversionFailed,
            ],
            WindowOutcome::Unreadable => seq![
                EventModel::Dumped,
                EventModel::Converted,
                EventModel::Unreadable,
            ],
            WindowOutcome::Rejected => seq![
                EventModel::Dumped,
                EventModel::Converted,
                EventModel::Rejected,
            ],
            WindowOutcome::Captured(item) => seq![
                EventModel::Dumped,
                EventModel::Converted,
                EventModel::Extracted(item),
            ],
        }
    }

    /// Whether the outcome ends the whole pass.
    pub open spec fn is_fatal(self) -> bool {
        self is DumpFailed || self is Unreadable
    }

    /// The error of a fatal outcome.
    pub open spec fn error(self) -> CaptureError {
        if self is DumpFailed {
            CaptureError::DumpFailed
        } else {
            CaptureError::ImageUnreadable
        }
    }

    /// The evidence that the window contributes.
    pub open spec fn evidence(self) -> Seq<EvidenceModel> {
        match self {
            WindowOutcome::Captured(item) => seq![item],
            _ => Seq::empty(),
        }
    }
}

/// Whether none of `outcomes` ends the pass.
pub open spec fn none_fatal(outcomes: Seq<WindowOutcome>) -> bool {
    forall|i: int| 0 <= i < outcomes.len() ==> !(#[trigger] outcomes[i]).is_fatal()
}

/// The events of the windows with these outcomes, window after window.
pub open spec fn events_of(outcomes: Seq<WindowOutcome>) -> Seq<EventModel>
    decreases outcomes.len(),
{
    if outcomes.len() == 0 {
        Seq::empty()
    } else {
        events_of(outcomes.drop_last()) + outcomes.last().events()
    }
}

/// The evidence of the windows with these outcomes, window after window.
pub open spec fn gathered(outcomes: Seq<WindowOutcome>) -> Seq<EvidenceModel>
    decreases outcomes.len(),
{
    if outcomes.len() == 0 {
        Seq::empty()
    } else {
        gathered(outcomes.drop_last()) + outcomes.last().evidence()
    }
}

/// Telling a pass of two runs of events, one after the other, is telling
/// it of both in one run.
pub proof fn lemma_run_concat(pass: PassModel, first: Seq<EventModel>, second: Seq<EventModel>)
    ensures
        pass.run(first + second) == pass.run(first).run(second),
    decreases second.len(),
{
    if second.len() == 0 {
        assert(first + second =~= first);
    } else {
        lemma_run_concat(pass, first, second.drop_last());
        assert((first + second).drop_last() =~= first + second.drop_last());
        assert((first + second).last() == second.last());
    }
}

/// What the events of one window make of a pass that awaits a dump.
pub proof fn lemma_window_events(pass: PassModel, outcome: WindowOutcome)
    requires
        pass.wf(),
        pass.phase is Dumping,
    ensures
        outcome.is_fatal() ==> pass.run(outcome.events()) == pass.in_phase(
            Phase::Aborted(outcome.error()),
        ),
        !outcome.is_fatal() ==> pass.run(outcome.events()) == pass.window_done(
            pass.evidence + outcome.evidence(),
        ),
{
    let events = outcome.events();
    let none = Seq::<EventModel>::empty();
    assert(pass.run(none) == pass);
    if events.len() == 1 {
        assert(events.drop_last() =~= none);
    } else if events.len() == 2 {
        let one = seq![events[0]];
        assert(one.drop_last() =~= none);
        assert(events.drop_last() =~= one);
        assert(pass.run(one) == pass.step(events[0]));
    } else {
        let one = seq![events[0]];
        let two = seq![events[0], events[1]];
        assert(one.drop_last() =~= none);
        assert(two.drop_last() =~= one);
        assert(events.drop_last() =~= two);
        assert(pass.run(one) == pass.step(events[0]));
        assert(pass.run(two) == pass.step(events[0]).step(events[1]));
    }
    match outcome {
        WindowOutcome::Captured(item) => {
            assert(pass.evidence + seq![item] =~= pass.evidence.push(item));
        },
        _ => {
            assert(pass.evidence + Seq::<EvidenceModel>::empty() =~= pass.evidence);
        },
    }
}

/// A pass whose windows so far had no fatal outcome has dealt with exactly
/// those windows, and holds exactly their evidence, in the order of the
/// enumeration: one item for each window that was captured, none for a
/// window whose conversion failed or whose evidence was rejected. It is
/// finished when every window had its outcome, and awaits the next dump
/// otherwise.
pub proof fn lemma_pass_gathers_in_order(windows: Seq<Seq<char>>, outcomes: Seq<WindowOutcome>)
    requires
        outcomes.len() <= windows.len(),
        none_fatal(outcomes),
    ensures
        PassModel::start(windows).run(events_of(outcomes)).wf(),
        PassModel::start(windows).run(events_of(outcomes)).windows == windows,
        PassModel::start(windows).run(events_of(outcomes)).position == outcomes.len(),
        PassModel::start(windows).run(events_of(outcomes)).evidence == gathered(outcomes),
        PassModel::start(windows).run(events_of(outcomes)).phase == if outcomes.len()
            == windows.len() {
            Phase::Finished
        } else {
            Phase::Dumping
        },
    decreases outcomes.len(),
{
    let start = PassModel::start(windows);
    if outcomes.len() > 0 {
        let front = outcomes.drop_last();
        assert forall|i: int| 0 <= i < front.len() implies !(#[trigger] front[i]).is_fatal() by {
            assert(front[i] == outcomes[i]);
        }
        lemma_pass_gathers_in_order(windows, front);
        let before = start.run(events_of(front));
        assert(!outcomes[outcomes.len() - 1].is_fatal());
        lemma_run_concat(start, events_of(front), outcomes.last().events());
        lemma_window_events(before, outcomes.last());
    }
}

/// A fatal outcome gives the pass up at that window: the windows after it
/// are not dealt with, whatever the pass is told of later, and the
/// evidence stays that of the windows before it.
pub proof fn lemma_fatal_outcome_ends_pass(
    windows: Seq<Seq<char>>,
    outcomes: Seq<WindowOutcome>,
    fatal: WindowOutcome,
    later: Seq<EventModel>,
)
    requires
        outcomes.len() < windows.len(),
        none_fatal(outcomes),
        fatal.is_fatal(),
    ensures
        PassModel::start(windows).run(events_of(outcomes.push(fatal)) + later)
            == PassModel::start(windows).run(events_of(outcomes.push(fatal))),
        PassModel::start(windows).run(events_of(outcomes.push(fatal))).phase == Phase::Aborted(
            fatal.error(),
        ),
        PassModel::start(windows).run(events_of(outcomes.push(fatal))).position == outcomes.len(),
        PassModel::start(windows).run(events_of(outcomes.push(fatal))).evidence == gathered(
            outcomes,
        ),
{
    let start = PassModel::start(windows);
    let all = outcomes.push(fatal);
    assert(all.drop_last() =~= outcomes);
    lemma_pass_gathers_in_order(windows, outcomes);
    let before = start.run(events_of(outcomes));
    lemma_run_concat(start, events_of(outcomes), fatal.events());
    lemma_window_events(before, fatal);
    let ended = start.run(events_of(all));
    lemma_run_concat(start, events_of(all), later);
    lemma_ended_run(ended, later);
}

/// A pass that has ended stays as it is over any run of events.
pub proof fn lemma_ended_run(pass: PassModel, events: Seq<EventModel>)
    requires
        pass.phase is Finished || pass.phase is Aborted,
    ensures
        pass.run(events) == pass,
    decreases events.len(),
{
    if events.len() > 0 {
        lemma_ended_run(pass, events.drop_last());
    }
}

} // verus!
