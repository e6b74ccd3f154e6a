//! The clipboard transaction: borrow the clipboard, have the focused
//! application copy its selection into it, read the result, and put back what
//! was there.
//!
//! The transaction is a state machine. [`ClipboardCapture::pending`] names the
//! action it waits for, [`ClipboardCapture::advance`] takes the outcome of
//! that action, and the machine ends by handing out the capture's result.

use vstd::prelude::*;
use crate::clipboard::{ClipboardContent, ClipboardModel};
use crate::guard::GuardDomain;
use crate::keys::Operation;
use crate::protocol::{
    clone_outcome, failure_message, failure_text, outcome_view, Action, ActionModel,
    CaptureError, CaptureErrorModel, Event, EventModel, OutcomeModel,
};
use crate::text::{trim_slice, trimmed};

verus! {

/// How long, in milliseconds, the clipboard is given to settle after the
/// placeholder is written.
pub const SETTLE_MS: u64 = 50;

/// How long, in milliseconds, the focused application is given to finish its
/// copy.
pub const COPY_WAIT_MS: u64 = 100;

/// The placeholder written to the clipboard before the copy, by which a copy
/// that changed nothing is told from one that brought text.
pub open spec fn sentinel() -> Seq<char> {
    Seq::empty()
}

/// What a capture reports for the text read back after the copy: nothing
/// where the text is, white space aside, the placeholder; the text otherwise.
pub open spec fn reported(read_back: Seq<char>) -> Seq<char> {
    if trimmed(read_back) == trimmed(sentinel()) {
        Seq::empty()
    } else {
        read_back
    }
}

/// Where a transaction stands, named by the action it waits for.
#[derive(Clone, Copy, Debug, PartialEq, Eq, Structural)]
pub enum Phase {
    /// Waiting for the copy-paste guard.
    Acquiring,
    /// Waiting for the clipboard's present content.
    Snapshotting,
    /// Waiting for the placeholder to be written.
    WritingSentinel,
    /// Waiting for the clipboard to settle.
    Settling,
    /// Waiting for the copy keystrokes to be sent.
    Copying,
    /// Waiting for the right-arrow keystroke that collapses the selection.
    Collapsing,
    /// Waiting for the focused application to finish its copy.
    Waiting,
    /// Waiting for the clipboard's text.
    ReadingBack,
    /// Waiting for the snapshot to be written back.
    Restoring,
    /// Waiting for the guard to be given back.
    Releasing,
    /// The result is ready.
    Finished,
}

/// The mathematical value of a [`ClipboardCapture`].
pub struct CaptureModel {
    pub phase: Phase,
    pub cancel_selection: bool,
    pub snapshot: ClipboardModel,
    pub outcome: OutcomeModel,
}

/// The transaction before its first action.
pub open spec fn started(cancel_selection: bool) -> CaptureModel {
    CaptureModel {
        phase: Phase::Acquiring,
        cancel_selection,
        snapshot: ClipboardModel::Empty,
        outcome: Ok(Seq::empty()),
    }
}

/// The action that writes `snapshot` back to the clipboard.
pub open spec fn restore_action(snapshot: ClipboardModel) -> ActionModel {
    match snapshot {
        ClipboardModel::Text(t) => ActionModel::WriteText(t),
        ClipboardModel::Image(i) => ActionModel::WriteImage(i),
        ClipboardModel::Empty => ActionModel::ClearClipboard,
    }
}

/// The action that the transaction waits for.
pub open spec fn pending_action(m: CaptureModel) -> ActionModel {
    match m.phase {
        Phase::Acquiring => ActionModel::Acquire(GuardDomain::CopyPaste),
        Phase::Snapshotting => ActionModel::ReadClipboard,
        Phase::WritingSentinel => ActionModel::WriteText(sentinel()),
        Phase::Settling => ActionModel::Pause(SETTLE_MS),
        Phase::Copying => ActionModel::Input(Operation::CopySelection),
        Phase::Collapsing => ActionModel::Input(Operation::RightArrow(1)),
        Phase::Waiting => ActionModel::Pause(COPY_WAIT_MS),
        Phase::ReadingBack => ActionModel::ReadText,
        Phase::Restoring => restore_action(m.snapshot),
        Phase::Releasing => ActionModel::Release(GuardDomain::CopyPaste),
        Phase::Finished => ActionModel::Finish(m.outcome),
    }
}

/// Where the transaction goes when the action of `phase` fails: it ends at
/// once without the guard, gives the guard back where the clipboard was not
/// touched, and writes the snapshot back first where it was.
pub open spec fn phase_after_failure(phase: Phase) -> Phase {
    match phase {
        Phase::Acquiring => Phase::Finished,
        Phase::Snapshotting => Phase::Releasing,
        Phase::WritingSentinel
        | Phase::Settling
        | Phase::Copying
        | Phase::Collapsing
        | Phase::Waiting
        | Phase::ReadingBack => Phase::Restoring,
        Phase::Restoring => Phase::Releasing,
        Phase::Releasing => Phase::Finished,
        Phase::Finished => Phase::Finished,
    }
}

/// Whether the action of `phase` reads or writes the clipboard.
pub open spec fn touches_clipboard(phase: Phase) -> bool {
    phase == Phase::Snapshotting || phase == Phase::WritingSentinel || phase == Phase::ReadingBack
        || phase == Phase::Restoring
}

/// The failure that a capture reports when the action of `phase` fails for
/// `reason`.
pub open spec fn failure_of(phase: Phase, reason: Seq<char>) -> CaptureErrorModel {
    if touches_clipboard(phase) {
        CaptureErrorModel::ClipboardAccessFailure(reason)
    } else {
        CaptureErrorModel::ExternalProcessFailure(reason)
    }
}

/// Whether `event` reports that the action of `phase` was carried out.
pub open spec fn succeeds(phase: Phase, event: EventModel) -> bool {
    match phase {
        Phase::Snapshotting => event is Clipboard,
        Phase::ReadingBack => event is Text,
        _ => event is Done,
    }
}

/// The phase that follows `phase` when its action was carried out.
pub open spec fn phase_after_success(phase: Phase, cancel_selection: bool) -> Phase {
    match phase {
        Phase::Acquiring => Phase::Snapshotting,
        Phase::Snapshotting => Phase::WritingSentinel,
        Phase::WritingSentinel => Phase::Settling,
        Phase::Settling => Phase::Copying,
        Phase::Copying => if cancel_selection {
            Phase::Collapsing
        } else {
            Phase::Waiting
        },
        Phase::Collapsing => Phase::Waiting,
        Phase::Waiting => Phase::ReadingBack,
        Phase::ReadingBack => Phase::Restoring,
        Phase::Restoring => Phase::Releasing,
        Phase::Releasing => Phase::Finished,
        Phase::Finished => Phase::Finished,
    }
}

/// The transaction after `event` answered its pending action.
///
/// An event of the expected shape moves it on: the clipboard's content becomes
/// the snapshot, and the text read back fixes the result. Any other event
/// counts as the action's failure. A failure before the result is fixed
/// becomes the result; one while restoring or releasing leaves the result as
/// it is. A finished transaction no longer changes.
pub open spec fn advanced(m: CaptureModel, event: EventModel) -> CaptureModel {
    if m.phase == Phase::Finished {
        m
    } else if succeeds(m.phase, event) {
        CaptureModel {
            phase: phase_after_success(m.phase, m.cancel_selection),
            cancel_selection: m.cancel_selection,
            snapshot: match event {
                EventModel::Clipboard(c) => c,
                _ => m.snapshot,
            },
            outcome: match event {
                EventModel::Text(t) => Ok(reported(t)),
                _ => m.outcome,
            },
        }
    } else {
        CaptureModel {
            phase: phase_after_failure(m.phase),
            cancel_selection: m.cancel_selection,
            snapshot: m.snapshot,
            outcome: if m.phase == Phase::Restoring || m.phase == Phase::Releasing {
                m.outcome
            } else {
                Err(failure_of(m.phase, failure_text(event)))
            },
        }
    }
}

/// One clipboard transaction in progress.
#[derive(Debug)]
pub struct ClipboardCapture {
    phase: Phase,
    cancel_selection: bool,
    snapshot: ClipboardContent,
    outcome: Result<String, CaptureError>,
}

impl View for ClipboardCapture {
    type V = CaptureModel;

    closed spec fn view(&self) -> CaptureModel {
        CaptureModel {
            phase: self.phase,
            cancel_selection: self.cancel_selection,
            snapshot: self.snapshot@,
            outcome: outcome_view(self.outcome),
        }
    }
}

/// The placeholder that is written to the clipboard before the copy.
pub fn sentinel_value() -> (r: String)
    ensures
        r@ == sentinel(),
{
    String::new()
}

/// What a capture reports for the text read back from the clipboard after the
/// copy: the empty text where the copy left only the placeholder, and the
/// text itself otherwise.
pub fn selection_from_read_back(read_back: String) -> (r: String)
    ensures
        r@ == reported(read_back@),
{
    let placeholder = sentinel_value();
    let left = trim_slice(read_back.as_str());
    let right = trim_slice(placeholder.as_str());
    if str_equal(left, right) {
        String::new()
    } else {
        read_back
    }
}

/// Whether two texts hold the same characters.
fn str_equal(a: &str, b: &str) -> (r: bool)
    ensures
        r == (a@ == b@),
{
    let x = a.to_owned();
    let y = b.to_owned();
    x == y
}

/// Begins a capture of the selected text through the clipboard. With
/// `cancel_select` the selection is collapsed right after the copy.
pub fn get_selected_text_by_clipboard(cancel_select: bool) -> (capture: ClipboardCapture)
    ensures
        capture@ == started(cancel_select),
{
    ClipboardCapture {
        phase: Phase::Acquiring,
        cancel_selection: cancel_select,
        snapshot: ClipboardContent::Empty,
        outcome: Ok(String::new()),
    }
}

impl ClipboardCapture {
    /// Where the transaction stands.
    pub fn phase(&self) -> (phase: Phase)
        ensures
            phase == self@.phase,
    {
        self.phase
    }

    /// Whether the result is ready.
    pub fn is_finished(&self) -> (finished: bool)
        ensures
            finished == (self@.phase == Phase::Finished),
    {
        match self.phase {
            Phase::Finished => true,
            _ => false,
        }
    }

    /// The action that the transaction waits for; once it has finished, the
    /// result.
    pub fn pending(&self) -> (action: Action)
        ensures
            action@ == pending_action(self@),
    {
        match self.phase {
            Phase::Acquiring => Action::Acquire(GuardDomain::CopyPaste),
            Phase::Snapshotting => Action::ReadClipboard,
            Phase::WritingSentinel => Action::WriteText(sentinel_value()),
            Phase::Settling => Action::Pause(SETTLE_MS),
            Phase::Copying => Action::Input(Operation::CopySelection),
            Phase::Collapsing => Action::Input(Operation::RightArrow(1)),
            Phase::Waiting => Action::Pause(COPY_WAIT_MS),
            Phase::ReadingBack => Action::ReadText,
            Phase::Restoring => match &self.snapshot {
                ClipboardContent::Text(t) => Action::WriteText(t.clone()),
                ClipboardContent::Image(i) => Action::WriteImage(i.clone()),
                ClipboardContent::Empty => Action::ClearClipboard,
            },
            Phase::Releasing => Action::Release(GuardDomain::CopyPaste),
            Phase::Finished => Action::Finish(clone_outcome(&self.outcome)),
        }
    }

    /// Takes the outcome of the pending action and moves on.
    pub fn advance(&mut self, event: Event)
        ensures
            final(self)@ == advanced(old(self)@, event@),
    {
        match self.phase {
            Phase::Acquiring => match event {
                Event::Done => {
                    self.phase = Phase::Snapshotting;
                },
                other => {
                    self.outcome = Err(
                        CaptureError::ExternalProcessFailure(failure_message(other)),
                    );
                    self.phase = Phase::Finished;
                },
            },
            Phase::Snapshotting => match event {
                Event::Clipboard(content) => {
                    self.snapshot = content;
                    self.phase = Phase::WritingSentinel;
                },
                other => {
                    self.outcome = Err(
                        CaptureError::ClipboardAccessFailure(failure_message(other)),
                    );
                    self.phase = Phase::Releasing;
                },
            },
            Phase::WritingSentinel => match event {
                Event::Done => {
                    self.phase = Phase::Settling;
                },
                other => {
                    self.outcome = Err(
                        CaptureError::ClipboardAccessFailure(failure_message(other)),
                    );
                    self.phase = Phase::Restoring;
                },
            },
            Phase::Settling => self.proceed(event, Phase::Copying),
            Phase::Copying => {
                let next = if self.cancel_selection {
                    Phase::Collapsing
                } else {
                    Phase::Waiting
                };
                self.proceed(event, next)
            },
            Phase::Collapsing => self.proceed(event, Phase::Waiting),
            Phase::Waiting => self.proceed(event, Phase::ReadingBack),
            Phase::ReadingBack => match event {
                Event::Text(text) => {
                    self.outcome = Ok(selection_from_read_back(text));
                    self.phase = Phase::Restoring;
                },
                other => {
                    self.outcome = Err(
                        CaptureError::ClipboardAccessFailure(failure_message(other)),
                    );
                    self.phase = Phase::Restoring;
                },
            },
            Phase::Restoring => {
                self.phase = Phase::Releasing;
            },
            Phase::Releasing => {
                self.phase = Phase::Finished;
            },
            Phase::Finished => {},
        }
    }

    /// Moves on from a keystroke or pause phase inside the borrowed window: to
    /// `next` where the action was carried out, and to the restore with a
    /// failure as the result where it was not.
    fn proceed(&mut self, event: Event, next: Phase)
        requires
            old(self).phase == Phase::Settling || old(self).phase == Phase::Copying || old(
                self,
            ).phase == Phase::Collapsing || old(self).phase == Phase::Waiting,
            next == phase_after_success(old(self).phase, old(self).cancel_selection),
        ensures
            final(self)@ == advanced(old(self)@, event@),
    {
        match event {
            Event::Done => {
                self.phase = next;
            },
            other => {
                self.outcome = Err(CaptureError::ExternalProcessFailure(failure_message(other)));
                self.phase = Phase::Restoring;
            },
        }
    }
}

} // verus!
