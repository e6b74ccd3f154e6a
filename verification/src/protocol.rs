//! The vocabulary between the engines and whoever drives them: the actions an
//! engine asks for, the events it takes back, and the ways a capture fails.

use vstd::prelude::*;
use crate::clipboard::{ClipboardContent, ClipboardModel, ImageData, ImageModel};
use crate::guard::GuardDomain;
use crate::keys::Operation;

verus! {

/// Why a capture produced no text although it was not for want of a
/// selection. Each variant carries what the failing party reported.
#[derive(Debug, PartialEq, Eq)]
pub enum CaptureError {
    /// Reading, writing or clearing the clipboard failed.
    ClipboardAccessFailure(String),
    /// The accessibility query reported that it could not answer.
    AccessibilityQueryFailure(String),
    /// A helper could not be run, ended abnormally, or its output could not
    /// be decoded.
    ExternalProcessFailure(String),
}

/// The mathematical value of a [`CaptureError`].
pub enum CaptureErrorModel {
    ClipboardAccessFailure(Seq<char>),
    AccessibilityQueryFailure(Seq<char>),
    ExternalProcessFailure(Seq<char>),
}

impl View for CaptureError {
    type V = CaptureErrorModel;

    open spec fn view(&self) -> CaptureErrorModel {
        match self {
            CaptureError::ClipboardAccessFailure(m) => CaptureErrorModel::ClipboardAccessFailure(
                m@,
            ),
            CaptureError::AccessibilityQueryFailure(m) =>
                CaptureErrorModel::AccessibilityQueryFailure(m@),
            CaptureError::ExternalProcessFailure(m) => CaptureErrorModel::ExternalProcessFailure(
                m@,
            ),
        }
    }
}

impl Clone for CaptureError {
    fn clone(&self) -> (r: Self)
        ensures
            r@ == self@,
    {
        match self {
            CaptureError::ClipboardAccessFailure(m) => CaptureError::ClipboardAccessFailure(
                m.clone(),
            ),
            CaptureError::AccessibilityQueryFailure(m) => CaptureError::AccessibilityQueryFailure(
                m.clone(),
            ),
            CaptureError::ExternalProcessFailure(m) => CaptureError::ExternalProcessFailure(
                m.clone(),
            ),
        }
    }
}

/// The mathematical value of what a capture reports.
pub type OutcomeModel = Result<Seq<char>, CaptureErrorModel>;

/// The view of what a capture reports.
pub open spec fn outcome_view(outcome: Result<String, CaptureError>) -> OutcomeModel {
    match outcome {
        Ok(text) => Ok(text@),
        Err(error) => Err(error@),
    }
}

/// A copy of what a capture reports.
pub fn clone_outcome(outcome: &Result<String, CaptureError>) -> (r: Result<String, CaptureError>)
    ensures
        outcome_view(r) == outcome_view(*outcome),
{
    match outcome {
        Ok(text) => Ok(text.clone()),
        Err(error) => Err(error.clone()),
    }
}

/// What a helper process left behind: whether it ended with success, and what
/// it wrote to its two streams.
#[derive(Debug, PartialEq, Eq)]
pub struct ProcessOutput {
    pub success: bool,
    pub stdout: Vec<u8>,
    pub stderr: Vec<u8>,
}

/// The mathematical value of a [`ProcessOutput`].
pub struct ProcessOutputModel {
    pub success: bool,
    pub stdout: Seq<u8>,
    pub stderr: Seq<u8>,
}

impl View for ProcessOutput {
    type V = ProcessOutputModel;

    open spec fn view(&self) -> ProcessOutputModel {
        ProcessOutputModel { success: self.success, stdout: self.stdout@, stderr: self.stderr@ }
    }
}

/// One thing an engine asks its driver to do.
#[derive(Debug, PartialEq, Eq)]
pub enum Action {
    /// Wait for the guard domain and take it.
    Acquire(GuardDomain),
    /// Give the guard domain back.
    Release(GuardDomain),
    /// Ask the focused application, through the accessibility interface, for
    /// its selected text.
    QueryAccessibility,
    /// Look up whether the user allows the clipboard to be used when the
    /// accessibility query gives nothing.
    ReadPrivacyFlag,
    /// Read what the clipboard holds, as text and as an image.
    ReadClipboard,
    /// Put this text on the clipboard.
    WriteText(String),
    /// Put this image on the clipboard.
    WriteImage(ImageData),
    /// Empty the clipboard.
    ClearClipboard,
    /// Read the clipboard as text.
    ReadText,
    /// Wait this many milliseconds.
    Pause(u64),
    /// Send the keystrokes of this operation to the focused application.
    Input(Operation),
    /// Nothing more to do: this is the capture's result.
    Finish(Result<String, CaptureError>),
}

/// The mathematical value of an [`Action`].
pub enum ActionModel {
    Acquire(GuardDomain),
    Release(GuardDomain),
    QueryAccessibility,
    ReadPrivacyFlag,
    ReadClipboard,
    WriteText(Seq<char>),
    WriteImage(ImageModel),
    ClearClipboard,
    ReadText,
    Pause(u64),
    Input(Operation),
    Finish(OutcomeModel),
}

impl View for Action {
    type V = ActionModel;

    open spec fn view(&self) -> ActionModel {
        match self {
            Action::Acquire(d) => ActionModel::Acquire(*d),
            Action::Release(d) => ActionModel::Release(*d),
            Action::QueryAccessibility => ActionModel::QueryAccessibility,
            Action::ReadPrivacyFlag => ActionModel::ReadPrivacyFlag,
            Action::ReadClipboard => ActionModel::ReadClipboard,
            Action::WriteText(t) => ActionModel::WriteText(t@),
            Action::WriteImage(i) => ActionModel::WriteImage(i@),
            Action::ClearClipboard => ActionModel::ClearClipboard,
            Action::ReadText => ActionModel::ReadText,
            Action::Pause(ms) => ActionModel::Pause(*ms),
            Action::Input(op) => ActionModel::Input(*op),
            Action::Finish(outcome) => ActionModel::Finish(outcome_view(*outcome)),
        }
    }
}

/// What the driver reports back after carrying out an action.
#[derive(Debug, PartialEq, Eq)]
pub enum Event {
    /// The action was carried out and there is nothing to report.
    Done,
    /// The action could not be carried out, with the reason given.
    Failed(String),
    /// What the clipboard held when it was read.
    Clipboard(ClipboardContent),
    /// The text read from the clipboard.
    Text(String),
    /// What the accessibility helper left behind.
    Script(ProcessOutput),
    /// The privacy flag as configured, `None` where it is not set.
    PrivacyFlag(Option<bool>),
}

/// The mathematical value of an [`Event`].
pub enum EventModel {
    Done,
    Failed(Seq<char>),
    Clipboard(ClipboardModel),
    Text(Seq<char>),
    Script(ProcessOutputModel),
    PrivacyFlag(Option<bool>),
}

impl View for Event {
    type V = EventModel;

    open spec fn view(&self) -> EventModel {
        match self {
            Event::Done => EventModel::Done,
            Event::Failed(m) => EventModel::Failed(m@),
            Event::Clipboard(c) => EventModel::Clipboard(c@),
            Event::Text(t) => EventModel::Text(t@),
            Event::Script(o) => EventModel::Script(o@),
            Event::PrivacyFlag(f) => EventModel::PrivacyFlag(*f),
        }
    }
}

/// The reason that a failure event gives; any other event gives none.
pub open spec fn failure_text(event: EventModel) -> Seq<char> {
    match event {
        EventModel::Failed(m) => m,
        _ => Seq::empty(),
    }
}

/// The reason that a failure event gives; any other event gives none.
pub fn failure_message(event: Event) -> (r: String)
    ensures
        r@ == failure_text(event@),
{
    match event {
        Event::Failed(m) => m,
        _ => String::new(),
    }
}

} // verus!
