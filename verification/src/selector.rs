//! The strategy selector, the engine's entry point: on a platform with an
//! accessibility interface it asks there first and goes to the clipboard only
//! with the user's consent; elsewhere the clipboard is the only way.

use vstd::prelude::*;
use crate::keys::Platform;
use crate::protocol::{
    clone_outcome, outcome_view, Action, ActionModel, CaptureError, Event, EventModel,
    OutcomeModel,
};
use crate::script::{ax_outcome, get_selected_text_by_ax};
use crate::transaction::{
    advanced, get_selected_text_by_clipboard, pending_action, started, CaptureModel,
    ClipboardCapture, Phase,
};

verus! {

/// A way of obtaining the selected text.
#[derive(Clone, Copy, Debug, PartialEq, Eq, Structural)]
pub enum Strategy {
    /// Ask the focused application through the accessibility interface.
    Accessibility,
    /// Borrow the clipboard and have the application copy into it.
    Clipboard,
}

/// The strategy with which a capture begins on `platform`.
pub open spec fn strategy_of(platform: Platform) -> Strategy {
    match platform {
        Platform::MacOs => Strategy::Accessibility,
        _ => Strategy::Clipboard,
    }
}

/// The strategy with which a capture begins on `platform`.
pub fn strategy_for(platform: Platform) -> (strategy: Strategy)
    ensures
        strategy == strategy_of(platform),
{
    match platform {
        Platform::MacOs => Strategy::Accessibility,
        _ => Strategy::Clipboard,
    }
}

/// Whether the configured privacy flag lets the clipboard be used: only when
/// it is set, and set to true.
pub open spec fn consents(flag: Option<bool>) -> bool {
    flag == Some(true)
}

/// Where a capture stands.
#[derive(Clone, Copy, Debug, PartialEq, Eq, Structural)]
pub enum Stage {
    /// Waiting for the accessibility query.
    Querying,
    /// Waiting for the privacy flag.
    Consulting,
    /// The clipboard transaction is under way.
    Capturing,
    /// Ended without the clipboard.
    Settled,
}

/// The mathematical value of a [`SelectedTextCapture`].
pub struct SelectorModel {
    pub stage: Stage,
    pub capture: CaptureModel,
    pub outcome: OutcomeModel,
}

/// The capture before its first action.
pub open spec fn selecting(platform: Platform) -> SelectorModel {
    SelectorModel {
        stage: match strategy_of(platform) {
            Strategy::Accessibility => Stage::Querying,
            Strategy::Clipboard => Stage::Capturing,
        },
        capture: started(false),
        outcome: Ok(Seq::empty()),
    }
}

/// The action that the capture waits for; once it has ended, the result.
pub open spec fn selector_pending(m: SelectorModel) -> ActionModel {
    match m.stage {
        Stage::Querying => ActionModel::QueryAccessibility,
        Stage::Consulting => ActionModel::ReadPrivacyFlag,
        Stage::Capturing => pending_action(m.capture),
        Stage::Settled => ActionModel::Finish(m.outcome),
    }
}

/// What the accessibility query gave, read from the event that answers it. An
/// event of any other shape than the helper's output counts as a helper that
/// could not be run.
pub open spec fn query_outcome(event: EventModel) -> OutcomeModel {
    match event {
        EventModel::Script(output) => ax_outcome(Ok(output)),
        EventModel::Failed(reason) => ax_outcome(Err(reason)),
        _ => ax_outcome(Err(Seq::empty())),
    }
}

/// The capture after `event` answered its pending action.
///
/// An accessibility query that succeeds ends the capture with its text, and
/// one that fails leads to the privacy flag. With consent the clipboard
/// transaction begins; without, or where the flag cannot be read, the capture
/// ends with the empty text. From then on the events belong to the
/// transaction.
pub open spec fn selector_advanced(m: SelectorModel, event: EventModel) -> SelectorModel {
    match m.stage {
        Stage::Querying => match query_outcome(event) {
            Ok(text) => SelectorModel { stage: Stage::Settled, outcome: Ok(text), ..m },
            Err(_) => SelectorModel { stage: Stage::Consulting, ..m },
        },
        Stage::Consulting => match event {
            EventModel::PrivacyFlag(flag) if consents(flag) => SelectorModel {
                stage: Stage::Capturing,
                ..m
            },
            _ => SelectorModel { stage: Stage::Settled, outcome: Ok(Seq::empty()), ..m },
        },
        Stage::Capturing => SelectorModel { capture: advanced(m.capture, event), ..m },
        Stage::Settled => m,
    }
}

/// Whether the capture has its result.
pub open spec fn ended(m: SelectorModel) -> bool {
    m.stage == Stage::Settled || (m.stage == Stage::Capturing && m.capture.phase
        == Phase::Finished)
}

/// The result that an ended capture hands out.
pub open spec fn result_of(m: SelectorModel) -> OutcomeModel {
    if m.stage == Stage::Capturing {
        m.capture.outcome
    } else {
        m.outcome
    }
}

/// One capture of the selected text in progress.
#[derive(Debug)]
pub struct SelectedTextCapture {
    stage: Stage,
    capture: ClipboardCapture,
    outcome: Result<String, CaptureError>,
}

impl View for SelectedTextCapture {
    type V = SelectorModel;

    closed spec fn view(&self) -> SelectorModel {
        SelectorModel {
            stage: self.stage,
            capture: self.capture@,
            outcome: outcome_view(self.outcome),
        }
    }
}

/// Begins a capture of the text that is selected in the focused application.
pub fn get_selected_text(platform: Platform) -> (capture: SelectedTextCapture)
    ensures
        capture@ == selecting(platform),
{
    let stage = match strategy_for(platform) {
        Strategy::Accessibility => Stage::Querying,
        Strategy::Clipboard => Stage::Capturing,
    };
    SelectedTextCapture {
        stage,
        capture: get_selected_text_by_clipboard(false),
        outcome: Ok(String::new()),
    }
}

/// Whether the user allows the clipboard to be used when the accessibility
/// query gives nothing.
pub fn allows_clipboard(flag: Option<bool>) -> (allowed: bool)
    ensures
        allowed == consents(flag),
{
    match flag {
        Some(allowed) => allowed,
        None => false,
    }
}

impl SelectedTextCapture {
    /// Where the capture stands.
    pub fn stage(&self) -> (stage: Stage)
        ensures
            stage == self@.stage,
    {
        self.stage
    }

    /// Whether the capture has its result.
    pub fn is_finished(&self) -> (finished: bool)
        ensures
            finished == ended(self@),
            finished ==> selector_pending(self@) == ActionModel::Finish(result_of(self@)),
    {
        match self.stage {
            Stage::Settled => true,
            Stage::Capturing => self.capture.is_finished(),
            _ => false,
        }
    }

    /// The action that the capture waits for; once it has ended, the result.
    pub fn pending(&self) -> (action: Action)
        ensures
            action@ == selector_pending(self@),
    {
        match self.stage {
            Stage::Querying => Action::QueryAccessibility,
            Stage::Consulting => Action::ReadPrivacyFlag,
            Stage::Capturing => self.capture.pending(),
            Stage::Settled => Action::Finish(clone_outcome(&self.outcome)),
        }
    }

    /// Takes the outcome of the pending action and moves on.
    pub fn advance(&mut self, event: Event)
        ensures
            final(self)@ == selector_advanced(old(self)@, event@),
    {
        match self.stage {
            Stage::Querying => {
                let answer = match event {
                    Event::Script(output) => get_selected_text_by_ax(Ok(output)),
                    Event::Failed(reason) => get_selected_text_by_ax(Err(reason)),
                    _ => get_selected_text_by_ax(Err(String::new())),
                };
                match answer {
                    Ok(text) => {
                        self.outcome = Ok(text);
                        self.stage = Stage::Settled;
                    },
                    Err(_) => {
                        self.stage = Stage::Consulting;
                    },
                }
            },
            Stage::Consulting => {
                let allowed = match event {
                    Event::PrivacyFlag(flag) => allows_clipboard(flag),
                    _ => false,
                };
                if allowed {
                    self.stage = Stage::Capturing;
                } else {
                    self.outcome = Ok(String::new());
                    self.stage = Stage::Settled;
                }
            },
            Stage::Capturing => {
                self.capture.advance(event);
            },
            Stage::Settled => {},
        }
    }
}

} // verus!
