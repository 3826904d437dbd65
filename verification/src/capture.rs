//! The capture pass: one window after another, each dumped, converted and
//! turned into evidence.
//!
//! The pass itself runs no tool. It says which step comes next, is told how
//! that step ended, and decides what follows: a failed dump ends the whole
//! pass, a failed conversion only leaves the window out.

use vstd::prelude::*;
use crate::encoding::base64_text;
use crate::evidence::{
    encodable_len, evidence_models, image_evidence, retain_ocr_text, retained_text, EvidenceItem,
    EvidenceModel,
};
use crate::listing::{ids_of, WindowRecord};

verus! {

/// Why a pass was given up.
#[derive(Clone, Copy, Debug, PartialEq, Eq, Structural)]
pub enum CaptureError {
    /// The raw dump of a window could not be made.
    DumpFailed,
    /// The image of a window, though converted, could not be read.
    ImageUnreadable,
    /// The pass was told of a step that it was not waiting for.
    OutOfTurn,
}

/// What a pass waits for.
#[derive(Clone, Copy, Debug, PartialEq, Eq, Structural)]
pub enum Phase {
    /// The raw dump of the current window.
    Dumping,
    /// The conversion of the current window's dump.
    Converting,
    /// The evidence of the current window's image.
    Extracting,
    /// Nothing: every window was dealt with.
    Finished,
    /// Nothing: the pass was given up.
    Aborted(CaptureError),
}

/// What the caller is to do next. The number is the position of the window
/// in the enumeration.
#[derive(Clone, Copy, Debug, PartialEq, Eq, Structural)]
pub enum CaptureAction {
    Dump(usize),
    Convert(usize),
    Extract(usize),
    Finish,
    Abort(CaptureError),
}

/// How a step ended.
#[derive(Debug)]
pub enum CaptureEvent {
    /// The dump was written.
    Dumped,
    /// The dump could not be made.
    DumpFailed,
    /// The dump was converted into an image.
    Converted,
    /// The conversion failed.
    ConversionFailed,
    /// The image gave this evidence.
    Extracted(EvidenceItem),
    /// The image gave nothing worth keeping.
    Rejected,
    /// The image could not be read.
    Unreadable,
}

/// A step's end as a plain value.
pub enum EventModel {
    Dumped,
    DumpFailed,
    Converted,
    ConversionFailed,
    Extracted(EvidenceModel),
    Rejected,
    Unreadable,
}

impl View for CaptureEvent {
    type V = EventModel;

    open spec fn view(&self) -> EventModel {
        match self {
            CaptureEvent::Dumped => EventModel::Dumped,
            CaptureEvent::DumpFailed => EventModel::DumpFailed,
            CaptureEvent::Converted => EventModel::Converted,
            CaptureEvent::ConversionFailed => EventModel::ConversionFailed,
            CaptureEvent::Extracted(item) => EventModel::Extracted(item@),
            CaptureEvent::Rejected => EventModel::Rejected,
            CaptureEvent::Unreadable => EventModel::Unreadable,
        }
    }
}

/// The event that the image file of a window gives under the visual
/// policy: its bytes encoded, or the report that it could not be read.
pub open spec fn image_event(read: Option<Seq<u8>>) -> EventModel {
    match read {
        Some(bytes) => EventModel::Extracted(EvidenceModel::Image(base64_text(bytes))),
        None => EventModel::Unreadable,
    }
}

/// The event that the text recognised in a window gives under the text
/// policy: the text where it is kept, a rejection where it is noise.
pub open spec fn text_event(text: Seq<char>) -> EventModel {
    match retained_text(text) {
        Some(item) => EventModel::Extracted(item),
        None => EventModel::Rejected,
    }
}

impl CaptureEvent {
    /// The event of a dump that ended well or badly.
    pub fn dump_ended(success: bool) -> (event: CaptureEvent)
        ensures
            event@ == if success {
                EventModel::Dumped
            } else {
                EventModel::DumpFailed
            },
    {
        if success {
            CaptureEvent::Dumped
        } else {
            CaptureEvent::DumpFailed
        }
    }

    /// The event of a conversion that ended well or badly.
    pub fn conversion_ended(success: bool) -> (event: CaptureEvent)
        ensures
            event@ == if success {
                EventModel::Converted
            } else {
                EventModel::ConversionFailed
            },
    {
        if success {
            CaptureEvent::Converted
        } else {
            CaptureEvent::ConversionFailed
        }
    }

    /// The event of an image file that was read, or could not be.
    pub fn image_read(read: Option<Vec<u8>>) -> (event: CaptureEvent)
        requires
            read matches Some(bytes) ==> encodable_len(bytes@.len()),
        ensures
            event@ == image_event(
                match read {
                    Some(bytes) => Some(bytes@),
                    None => None,
                },
            ),
    {
        match read {
            Some(bytes) => CaptureEvent::Extracted(image_evidence(bytes.as_slice())),
            None => CaptureEvent::Unreadable,
        }
    }

    /// The event of text that was recognised in an image.
    pub fn text_recognised(text: String) -> (event: CaptureEvent)
        ensures
            event@ == text_event(text@),
    {
        match retain_ocr_text(text) {
            Some(item) => CaptureEvent::Extracted(item),
            None => CaptureEvent::Rejected,
        }
    }
}

/// A capture pass over the enumerated windows.
#[derive(Debug)]
pub struct CapturePass {
    /// The windows, in the order of the enumeration.
    pub windows: Vec<WindowRecord>,
    /// The position of the current window; the windows before it are done.
    pub position: usize,
    pub phase: Phase,
    /// The evidence gathered from the windows that are done.
    pub evidence: Vec<EvidenceItem>,
}

/// A pass as a plain value.
pub struct PassModel {
    pub windows: Seq<Seq<char>>,
    pub position: nat,
    pub phase: Phase,
    pub evidence: Seq<EvidenceModel>,
}

impl View for CapturePass {
    type V = PassModel;

    open spec fn view(&self) -> PassModel {
        PassModel {
            windows: ids_of(self.windows@),
            position: self.position as nat,
            phase: self.phase,
            evidence: evidence_models(self.evidence@),
        }
    }
}

impl PassModel {
    /// The pass is consistent: a window is current exactly while a step is
    /// awaited, and no window that is done gave more than one item.
    pub open spec fn wf(self) -> bool {
        &&& self.position <= self.windows.len()
        &&& self.evidence.len() <= self.position
        &&& match self.phase {
            Phase::Dumping | Phase::Converting | Phase::Extracting => self.position
                < self.windows.len(),
            Phase::Finished => self.position == self.windows.len(),
            Phase::Aborted(_) => true,
        }
    }

    /// The pass before its first step.
    pub open spec fn start(windows: Seq<Seq<char>>) -> PassModel {
        PassModel {
            windows,
            position: 0,
            phase: if windows.len() == 0 {
                Phase::Finished
            } else {
                Phase::Dumping
            },
            evidence: Seq::empty(),
        }
    }

    /// The pass after the current window is done, with `evidence` gathered.
    pub open spec fn window_done(self, evidence: Seq<EvidenceModel>) -> PassModel {
        PassModel {
            windows: self.windows,
            position: self.position + 1,
            phase: if self.position + 1 < self.windows.len() {
                Phase::Dumping
            } else {
                Phase::Finished
            },
            evidence,
        }
    }

    /// The pass in another phase, all else unchanged.
    pub open spec fn in_phase(self, phase: Phase) -> PassModel {
        PassModel { phase, ..self }
    }

    /// The pass after it is told of `event`.
    pub open spec fn step(self, event: EventModel) -> PassModel {
        match (self.phase, event) {
            (Phase::Dumping, EventModel::Dumped) => self.in_phase(Phase::Converting),
            (Phase::Dumping, EventModel::DumpFailed) => self.in_phase(
                Phase::Aborted(CaptureError::DumpFailed),
            ),
            (Phase::Converting, EventModel::Converted) => self.in_phase(Phase::Extracting),
            (Phase::Converting, EventModel::ConversionFailed) => self.window_done(self.evidence),
            (Phase::Extracting, EventModel::Extracted(item)) => self.window_done(
                self.evidence.push(item),
            ),
            (Phase::Extracting, EventModel::Rejected) => self.window_done(self.evidence),
            (Phase::Extracting, EventModel::Unreadable) => self.in_phase(
                Phase::Aborted(CaptureError::ImageUnreadable),
            ),
            (Phase::Finished, _) => self,
            (Phase::Aborted(_), _) => self,
            _ => self.in_phase(Phase::Aborted(CaptureError::OutOfTurn)),
        }
    }

    /// The pass after it is told of `events`, one after the other.
    pub open spec fn run(self, events: Seq<EventModel>) -> PassModel
        decreases events.len(),
    {
        if events.len() == 0 {
            self
        } else {
            self.run(events.drop_last()).step(events.last())
        }
    }

    /// What the caller is to do next.
    pub open spec fn action(self) -> CaptureAction {
        match self.phase {
            Phase::Dumping => CaptureAction::Dump(self.position as usize),
            Phase::Converting => CaptureAction::Convert(self.position as usize),
            Phase::Extracting => CaptureAction::Extract(self.position as usize),
            Phase::Finished => CaptureAction::Finish,
            Phase::Aborted(e) => CaptureAction::Abort(e),
        }
    }
}

impl CapturePass {
    /// The pass is consistent.
    pub open spec fn wf(&self) -> bool {
        self@.wf()
    }

    /// Whether the pass is consistent.
    pub fn is_consistent(&self) -> (r: bool)
        ensures
            r == self.wf(),
    {
        self.position <= self.windows.len() && self.evidence.len() <= self.position && match self.phase {
            Phase::Dumping | Phase::Converting | Phase::Extracting => self.position
                < self.windows.len(),
            Phase::Finished => self.position == self.windows.len(),
            Phase::Aborted(_) => true,
        }
    }

    /// Starts a pass over `windows`.
    pub fn new(windows: Vec<WindowRecord>) -> (pass: CapturePass)
        ensures
            pass.wf(),
            pass.windows == windows,
            pass@ == PassModel::start(ids_of(windows@)),
    {
        let phase = if windows.len() == 0 {
            Phase::Finished
        } else {
            Phase::Dumping
        };
        let pass = CapturePass { windows, position: 0, phase, evidence: Vec::new() };
        assert(pass@.evidence =~= Seq::<EvidenceModel>::empty());
        pass
    }

    /// What the caller is to do next: a step on the current window, or the
    /// end of the pass.
    pub fn next_action(&self) -> (action: CaptureAction)
        requires
            self.wf(),
        ensures
            action == self@.action(),
            match action {
                CaptureAction::Dump(i) | CaptureAction::Convert(i) | CaptureAction::Extract(i) => i
                    < self.windows.len(),
                _ => true,
            },
    {
        match self.phase {
            Phase::Dumping => CaptureAction::Dump(self.position),
            Phase::Converting => CaptureAction::Convert(self.position),
            Phase::Extracting => CaptureAction::Extract(self.position),
            Phase::Finished => CaptureAction::Finish,
            Phase::Aborted(e) => CaptureAction::Abort(e),
        }
    }

    /// The window that the awaited step is about, if a step is awaited.
    pub fn current_window(&self) -> (window: Option<&WindowRecord>)
        requires
            self.wf(),
        ensures
            match window {
                Some(w) => self.position < self.windows.len() && *w
                    == self.windows[self.position as int] && !(self.phase is Finished)
                    && !(self.phase is Aborted),
                None => self.phase is Finished || self.phase is Aborted,
            },
    {
        match self.phase {
            Phase::Finished => None,
            Phase::Aborted(_) => None,
            _ => Some(&self.windows[self.position]),
        }
    }

    /// Moves on to the next window without new evidence.
    fn finish_window(&mut self)
        requires
            old(self).position < old(self).windows.len(),
        ensures
            final(self).windows == old(self).windows,
            final(self).evidence == old(self).evidence,
            final(self)@ == old(self)@.window_done(old(self)@.evidence),
    {
        self.position = self.position + 1;
        self.phase = if self.position < self.windows.len() {
            Phase::Dumping
        } else {
            Phase::Finished
        };
    }

    /// Tells the pass how the step that it waited for ended.
    ///
    /// A failed dump or an unreadable image gives the pass up. A failed
    /// conversion or rejected evidence leaves the window out and moves on.
    /// Evidence is appended, so it stays in the order of the enumeration.
    /// A pass that has ended stays as it is; an event that does not answer
    /// the awaited step gives the pass up.
    pub fn handle(&mut self, event: CaptureEvent)
        requires
            old(self).wf(),
        ensures
            final(self).wf(),
            final(self).windows == old(self).windows,
            final(self)@ == old(self)@.step(event@),
    {
        let ghost before = self@;
        match (self.phase, event) {
            (Phase::Dumping, CaptureEvent::Dumped) => {
                self.phase = Phase::Converting;
            },
            (Phase::Dumping, CaptureEvent::DumpFailed) => {
                self.phase = Phase::Aborted(CaptureError::DumpFailed);
            },
            (Phase::Converting, CaptureEvent::Converted) => {
                self.phase = Phase::Extracting;
            },
            (Phase::Converting, CaptureEvent::ConversionFailed) => {
                self.finish_window();
            },
            (Phase::Extracting, CaptureEvent::Extracted(item)) => {
                assert(self.position < self.windows.len());
                self.evidence.push(item);
                assert(evidence_models(self.evidence@) =~= before.evidence.push(item@));
                self.finish_window();
            },
            (Phase::Extracting, CaptureEvent::Rejected) => {
                self.finish_window();
            },
            (Phase::Extracting, CaptureEvent::Unreadable) => {
                self.phase = Phase::Aborted(CaptureError::ImageUnreadable);
            },
            (Phase::Finished, _) => {},
            (Phase::Aborted(_), _) => {},
            _ => {
                self.phase = Phase::Aborted(CaptureError::OutOfTurn);
            },
        }
    }

    /// Ends the pass and hands out the evidence gathered so far.
    pub fn into_evidence(self) -> (evidence: Vec<EvidenceItem>)
        ensures
            evidence == self.evidence,
    {
        self.evidence
    }
}

/// Every step keeps a pass consistent.
pub proof fn lemma_step_keeps_wf(pass: PassModel, event: EventModel)
    requires
        pass.wf(),
    ensures
        pass.step(event).wf(),
{
}

/// A step never reorders or removes evidence, adds at most one item, at the
/// end, and only when it finishes a window; the enumeration is untouched.
pub proof fn lemma_step_appends(pass: PassModel, event: EventModel)
    requires
        pass.wf(),
    ensures
        pass.step(event).windows == pass.windows,
        pass.position <= pass.step(event).position <= pass.position + 1,
        pass.step(event).evidence.len() <= pass.evidence.len() + 1,
        pass.evidence.is_prefix_of(pass.step(event).evidence),
        pass.step(event).evidence.len() > pass.evidence.len() ==> pass.step(event).position
            == pass.position + 1,
{
}

/// Over any run of steps a pass stays consistent, keeps the evidence that
/// it had as the start of what it has, never goes back to an earlier
/// window, and gains no more items than it finishes windows: the evidence
/// stands in the order of the enumeration, at most one item for a window.
pub proof fn lemma_run_keeps_order(pass: PassModel, events: Seq<EventModel>)
    requires
        pass.wf(),
    ensures
        pass.run(events).wf(),
        pass.run(events).windows == pass.windows,
        pass.position <= pass.run(events).position,
        pass.evidence.is_prefix_of(pass.run(events).evidence),
        pass.run(events).evidence.len() - pass.evidence.len() <= pass.run(events).position
            - pass.position,
    decreases events.len(),
{
    if events.len() > 0 {
        let before = pass.run(events.drop_last());
        lemma_run_keeps_order(pass, events.drop_last());
        lemma_step_keeps_wf(before, events.last());
        lemma_step_appends(before, events.last());
    }
}

/// A pass that has ended takes no further step.
pub proof fn lemma_ended_pass_is_fixed(pass: PassModel, event: EventModel)
    requires
        pass.phase is Finished || pass.phase is Aborted,
    ensures
        pass.step(event) == pass,
{
}

} // verus!
