//! A model of the desktop that the engines act on, and what holds of a
//! capture that runs against it: the clipboard is put back, the placeholder
//! is never reported as a selection, and a capture can be repeated.

use vstd::prelude::*;
use crate::clipboard::ClipboardModel;
use crate::keys::Operation;
use crate::protocol::{ActionModel, CaptureErrorModel, EventModel, ProcessOutputModel};
use crate::text::trimmed;
use crate::transaction::{
    advanced, pending_action, reported, restore_action, sentinel, started, CaptureModel, Phase,
};

verus! {

/// The part of the desktop that a capture can see or change.
pub struct Desktop {
    /// What the clipboard holds.
    pub clipboard: ClipboardModel,
    /// The text selected in the focused application; empty where nothing is
    /// selected.
    pub selection: Seq<char>,
    /// What a run of the accessibility helper gives.
    pub accessibility: Result<ProcessOutputModel, Seq<char>>,
    /// The privacy flag as configured.
    pub privacy_flag: Option<bool>,
    /// How many times the engine has written to the clipboard or cleared it.
    pub writes: nat,
    /// How many actions have been asked of the desktop.
    pub clock: nat,
    /// Which action fails at which time.
    pub faults: spec_fn(nat, ActionModel) -> bool,
}

/// The clipboard after `action`, where it is carried out.
pub open spec fn clipboard_after(d: Desktop, action: ActionModel) -> ClipboardModel {
    match action {
        ActionModel::WriteText(t) => ClipboardModel::Text(t),
        ActionModel::WriteImage(i) => ClipboardModel::Image(i),
        ActionModel::ClearClipboard => ClipboardModel::Empty,
        ActionModel::Input(Operation::CopySelection) => if d.selection.len() > 0 {
            ClipboardModel::Text(d.selection)
        } else {
            d.clipboard
        },
        _ => d.clipboard,
    }
}

/// The selection after `action`, where it is carried out: moving the caret
/// collapses it.
pub open spec fn selection_after(d: Desktop, action: ActionModel) -> Seq<char> {
    match action {
        ActionModel::Input(Operation::LeftArrow(n)) if n > 0 => Seq::empty(),
        ActionModel::Input(Operation::RightArrow(n)) if n > 0 => Seq::empty(),
        _ => d.selection,
    }
}

/// Whether `action` is a write of the engine to the clipboard.
pub open spec fn is_write(action: ActionModel) -> bool {
    action is WriteText || action is WriteImage || action is ClearClipboard
}

/// What the desktop reports when `action` is carried out.
pub open spec fn answer_to(d: Desktop, action: ActionModel) -> EventModel {
    match action {
        ActionModel::QueryAccessibility => match d.accessibility {
            Ok(output) => EventModel::Script(output),
            Err(reason) => EventModel::Failed(reason),
        },
        ActionModel::ReadPrivacyFlag => EventModel::PrivacyFlag(d.privacy_flag),
        ActionModel::ReadClipboard => EventModel::Clipboard(d.clipboard),
        ActionModel::ReadText => match d.clipboard {
            ClipboardModel::Text(t) => EventModel::Text(t),
            _ => EventModel::Failed(Seq::empty()),
        },
        _ => EventModel::Done,
    }
}

/// The desktop after `action` was asked of it. A finished capture asks
/// nothing. An action that fails changes nothing but the time.
pub open spec fn desktop_after(d: Desktop, action: ActionModel) -> Desktop {
    if action is Finish {
        d
    } else if (d.faults)(d.clock, action) {
        Desktop { clock: d.clock + 1, ..d }
    } else {
        Desktop {
            clipboard: clipboard_after(d, action),
            selection: selection_after(d, action),
            writes: if is_write(action) {
                d.writes + 1
            } else {
                d.writes
            },
            clock: d.clock + 1,
            ..d
        }
    }
}

/// The event with which the desktop answers `action`.
pub open spec fn event_for(d: Desktop, action: ActionModel) -> EventModel {
    if !(action is Finish) && (d.faults)(d.clock, action) {
        EventModel::Failed(Seq::empty())
    } else {
        answer_to(d, action)
    }
}

/// No action ever fails on this desktop.
pub open spec fn faultless(d: Desktop) -> bool {
    forall|t: nat, a: ActionModel| !(#[trigger] (d.faults)(t, a))
}

/// The action `action` never fails on this desktop.
pub open spec fn never_fails(d: Desktop, action: ActionModel) -> bool {
    forall|t: nat| !(#[trigger] (d.faults)(t, action))
}

/// A clipboard transaction together with the desktop it acts on.
pub struct Scene {
    pub capture: CaptureModel,
    pub desktop: Desktop,
}

/// One round: the desktop carries out the pending action and the transaction
/// takes the answer.
pub open spec fn round(s: Scene) -> Scene {
    let action = pending_action(s.capture);
    Scene {
        capture: advanced(s.capture, event_for(s.desktop, action)),
        desktop: desktop_after(s.desktop, action),
    }
}

/// `rounds` rounds, or as many as it takes the transaction to finish.
pub open spec fn play(s: Scene, rounds: nat) -> Scene
    decreases rounds,
{
    if rounds == 0 || s.capture.phase == Phase::Finished {
        s
    } else {
        play(round(s), (rounds - 1) as nat)
    }
}

/// How many rounds a transaction in `phase` needs at most to finish.
pub open spec fn rounds_left(phase: Phase) -> nat {
    match phase {
        Phase::Acquiring => 10,
        Phase::Snapshotting => 9,
        Phase::WritingSentinel => 8,
        Phase::Settling => 7,
        Phase::Copying => 6,
        Phase::Collapsing => 5,
        Phase::Waiting => 4,
        Phase::ReadingBack => 3,
        Phase::Restoring => 2,
        Phase::Releasing => 1,
        Phase::Finished => 0,
    }
}

/// A whole clipboard capture on the desktop `d`.
pub open spec fn captured(d: Desktop, cancel_selection: bool) -> Scene {
    play(Scene { capture: started(cancel_selection), desktop: d }, 10)
}

/// Whether whatever happens from here, the clipboard will hold `initial`
/// when the transaction has finished: before the snapshot and after the
/// restore the clipboard holds it, and in between the snapshot does.
pub open spec fn keeps(s: Scene, initial: ClipboardModel) -> bool {
    match s.capture.phase {
        Phase::Acquiring | Phase::Snapshotting | Phase::Releasing | Phase::Finished =>
            s.desktop.clipboard == initial,
        _ => s.capture.snapshot == initial,
    }
}

/// Every action of a transaction moves it closer to its end.
pub proof fn lemma_round_progress(s: Scene)
    requires
        s.capture.phase != Phase::Finished,
    ensures
        rounds_left(round(s).capture.phase) < rounds_left(s.capture.phase),
        round(s).desktop.faults == s.desktop.faults,
{
}

/// A transaction that is given as many rounds as it can need finishes.
pub proof fn lemma_play_finishes(s: Scene, rounds: nat)
    requires
        rounds_left(s.capture.phase) <= rounds,
    ensures
        play(s, rounds).capture.phase == Phase::Finished,
        play(s, rounds).desktop.faults == s.desktop.faults,
    decreases rounds,
{
    if rounds > 0 && s.capture.phase != Phase::Finished {
        lemma_round_progress(s);
        lemma_play_finishes(round(s), (rounds - 1) as nat);
    }
}

/// A round keeps the promise that the clipboard will be put back, as long as
/// the write that puts it back does not fail.
pub proof fn lemma_round_keeps(s: Scene, initial: ClipboardModel)
    requires
        keeps(s, initial),
        never_fails(s.desktop, restore_action(initial)),
    ensures
        keeps(round(s), initial),
        never_fails(round(s).desktop, restore_action(initial)),
{
}

/// Any number of rounds keeps the promise that the clipboard will be put
/// back, as long as the write that puts it back does not fail.
pub proof fn lemma_play_keeps(s: Scene, rounds: nat, initial: ClipboardModel)
    requires
        keeps(s, initial),
        never_fails(s.desktop, restore_action(initial)),
    ensures
        keeps(play(s, rounds), initial),
    decreases rounds,
{
    if rounds > 0 && s.capture.phase != Phase::Finished {
        lemma_round_keeps(s, initial);
        lemma_play_keeps(round(s), (rounds - 1) as nat, initial);
    }
}

/// Clipboard restoration. Whatever the clipboard held, text, an image or
/// nothing, and whichever of the transaction's actions fail, the transaction
/// finishes and the clipboard then holds what it held before, provided that
/// the write that puts the content back does not itself fail.
pub proof fn lemma_capture_restores_clipboard(d: Desktop, cancel_selection: bool)
    requires
        never_fails(d, restore_action(d.clipboard)),
    ensures
        captured(d, cancel_selection).capture.phase == Phase::Finished,
        captured(d, cancel_selection).desktop.clipboard == d.clipboard,
{
    let s = Scene { capture: started(cancel_selection), desktop: d };
    lemma_play_finishes(s, 10);
    lemma_play_keeps(s, 10, d.clipboard);
}

/// What the transaction will report on a desktop where nothing fails and
/// `selection` was selected when it began: until the copy the selection is
/// still there, after it the clipboard holds the selection or, where nothing
/// was selected, the placeholder, and from the read-back on the result is
/// fixed.
pub open spec fn foresees(s: Scene, selection: Seq<char>) -> bool {
    match s.capture.phase {
        Phase::Acquiring | Phase::Snapshotting | Phase::WritingSentinel => s.desktop.selection
            == selection,
        Phase::Settling | Phase::Copying => s.desktop.selection == selection
            && s.desktop.clipboard == ClipboardModel::Text(sentinel()),
        Phase::Collapsing | Phase::Waiting | Phase::ReadingBack => s.desktop.clipboard
            == ClipboardModel::Text(
            if selection.len() > 0 {
                selection
            } else {
                sentinel()
            },
        ),
        Phase::Restoring | Phase::Releasing | Phase::Finished => s.capture.outcome == Ok::<
            Seq<char>,
            CaptureErrorModel,
        >(reported(selection)),
    }
}

/// The selection that a transaction leaves behind on a desktop where nothing
/// fails: collapsed where it was asked to cancel it and has sent that
/// keystroke, which it sends only when asked; untouched otherwise.
pub open spec fn leaves_selection(s: Scene, selection: Seq<char>) -> bool {
    match s.capture.phase {
        Phase::Acquiring
        | Phase::Snapshotting
        | Phase::WritingSentinel
        | Phase::Settling
        | Phase::Copying => s.desktop.selection == selection,
        Phase::Collapsing => s.desktop.selection == selection && s.capture.cancel_selection,
        _ => s.desktop.selection == if s.capture.cancel_selection {
            Seq::empty()
        } else {
            selection
        },
    }
}

/// On a desktop where nothing fails, a round keeps what the transaction will
/// report and what it leaves selected.
pub proof fn lemma_round_foresees(s: Scene, selection: Seq<char>)
    requires
        faultless(s.desktop),
        foresees(s, selection),
        leaves_selection(s, selection),
    ensures
        faultless(round(s).desktop),
        foresees(round(s), selection),
        leaves_selection(round(s), selection),
        round(s).capture.cancel_selection == s.capture.cancel_selection,
{
    if selection.len() == 0 {
        assert(selection =~= sentinel());
    }
}

/// On a desktop where nothing fails, any number of rounds keeps what the
/// transaction will report and what it leaves selected.
pub proof fn lemma_play_foresees(s: Scene, rounds: nat, selection: Seq<char>)
    requires
        faultless(s.desktop),
        foresees(s, selection),
        leaves_selection(s, selection),
    ensures
        faultless(play(s, rounds).desktop),
        foresees(play(s, rounds), selection),
        leaves_selection(play(s, rounds), selection),
        play(s, rounds).capture.cancel_selection == s.capture.cancel_selection,
    decreases rounds,
{
    if rounds > 0 && s.capture.phase != Phase::Finished {
        lemma_round_foresees(s, selection);
        lemma_play_foresees(round(s), (rounds - 1) as nat, selection);
    }
}

/// Where nothing fails, a clipboard capture reports the selection of the
/// focused application, or the empty text where the selection is blank; and
/// it leaves the selection alone unless it was asked to cancel it.
pub proof fn lemma_capture_reports_selection(d: Desktop, cancel_selection: bool)
    requires
        faultless(d),
    ensures
        captured(d, cancel_selection).capture.phase == Phase::Finished,
        captured(d, cancel_selection).capture.outcome == Ok::<Seq<char>, CaptureErrorModel>(
            reported(d.selection),
        ),
        captured(d, cancel_selection).desktop.selection == if cancel_selection {
            Seq::empty()
        } else {
            d.selection
        },
        faultless(captured(d, cancel_selection).desktop),
{
    let s = Scene { capture: started(cancel_selection), desktop: d };
    lemma_play_finishes(s, 10);
    lemma_play_foresees(s, 10, d.selection);
}

/// Sentinel disambiguation, at the read-back: text that is the placeholder,
/// white space aside, fixes the result to the empty text.
pub proof fn lemma_sentinel_read_back(m: CaptureModel, read_back: Seq<char>)
    requires
        m.phase == Phase::ReadingBack,
        trimmed(read_back) == trimmed(sentinel()),
    ensures
        advanced(m, EventModel::Text(read_back)).outcome == Ok::<Seq<char>, CaptureErrorModel>(
            Seq::empty(),
        ),
{
}

/// Sentinel disambiguation, for a whole capture: where nothing is selected,
/// so that the copy leaves the placeholder on the clipboard, and nothing
/// fails, the capture reports the empty text.
pub proof fn lemma_no_selection_reports_nothing(d: Desktop, cancel_selection: bool)
    requires
        faultless(d),
        d.selection.len() == 0,
    ensures
        captured(d, cancel_selection).capture.outcome == Ok::<Seq<char>, CaptureErrorModel>(
            Seq::empty(),
        ),
{
    lemma_capture_reports_selection(d, cancel_selection);
    assert(d.selection =~= sentinel());
}

/// Idempotence. On a desktop where nothing fails, a second capture right
/// after the first, with the selection as it was before the first, reports
/// what the first reported, and afterwards the clipboard holds what it held
/// before the first.
pub proof fn lemma_capture_twice(d: Desktop, cancel_selection: bool)
    requires
        faultless(d),
        captured(d, cancel_selection).desktop.selection == d.selection,
    ensures
        captured(captured(d, cancel_selection).desktop, cancel_selection).capture.outcome
            == captured(d, cancel_selection).capture.outcome,
        captured(captured(d, cancel_selection).desktop, cancel_selection).desktop.clipboard
            == d.clipboard,
{
    let between = captured(d, cancel_selection).desktop;
    lemma_capture_reports_selection(d, cancel_selection);
    lemma_capture_restores_clipboard(d, cancel_selection);
    lemma_capture_reports_selection(between, cancel_selection);
    lemma_capture_restores_clipboard(between, cancel_selection);
}

/// A clipboard transaction changes neither what the accessibility helper
/// would answer nor the privacy flag.
pub proof fn lemma_play_leaves_settings(s: Scene, rounds: nat)
    ensures
        play(s, rounds).desktop.accessibility == s.desktop.accessibility,
        play(s, rounds).desktop.privacy_flag == s.desktop.privacy_flag,
    decreases rounds,
{
    if rounds > 0 && s.capture.phase != Phase::Finished {
        lemma_play_leaves_settings(round(s), (rounds - 1) as nat);
    }
}

} // verus!
