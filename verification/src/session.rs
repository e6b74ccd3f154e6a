//! A capture through the engine's entry point, run against the model of the
//! desktop, and what holds of it: without consent the clipboard is never
//! touched, and with it the clipboard is put back.

use vstd::prelude::*;
use crate::desktop::{
    captured, desktop_after, event_for, faultless, lemma_capture_reports_selection,
    lemma_capture_restores_clipboard, lemma_play_leaves_settings, lemma_round_progress,
    never_fails, play, round, rounds_left, Desktop, Scene,
};
use crate::keys::Platform;
use crate::protocol::{ActionModel, CaptureErrorModel, OutcomeModel};
use crate::script::ax_outcome;
use crate::selector::{
    consents, ended, result_of, selecting, selector_advanced, selector_pending, strategy_of,
    SelectorModel, Stage, Strategy,
};
use crate::transaction::{reported, restore_action, started, Phase};

verus! {

/// A capture together with the desktop it acts on.
pub struct Session {
    pub capture: SelectorModel,
    pub desktop: Desktop,
}

/// One turn: the desktop carries out the pending action and the capture takes
/// the answer.
pub open spec fn turn(s: Session) -> Session {
    let action = selector_pending(s.capture);
    Session {
        capture: selector_advanced(s.capture, event_for(s.desktop, action)),
        desktop: desktop_after(s.desktop, action),
    }
}

/// `turns` turns, or as many as it takes the capture to end.
pub open spec fn carry(s: Session, turns: nat) -> Session
    decreases turns,
{
    if turns == 0 || ended(s.capture) {
        s
    } else {
        carry(turn(s), (turns - 1) as nat)
    }
}

/// A whole capture on `platform` and the desktop `d`.
pub open spec fn selected(d: Desktop, platform: Platform) -> Session {
    carry(Session { capture: selecting(platform), desktop: d }, 12)
}

/// The clipboard transaction inside a capture, with the desktop.
pub open spec fn scene_of(s: Session) -> Scene {
    Scene { capture: s.capture.capture, desktop: s.desktop }
}

/// Once the clipboard transaction is under way, a capture is carried as the
/// transaction is played.
pub proof fn lemma_carry_plays(s: Session, turns: nat)
    requires
        s.capture.stage == Stage::Capturing,
    ensures
        carry(s, turns).capture.stage == Stage::Capturing,
        carry(s, turns).capture.outcome == s.capture.outcome,
        scene_of(carry(s, turns)) == play(scene_of(s), turns),
    decreases turns,
{
    if turns > 0 && !ended(s.capture) {
        assert(scene_of(turn(s)) == round(scene_of(s)));
        lemma_carry_plays(turn(s), (turns - 1) as nat);
    }
}

/// Where the clipboard is the only way, a capture is one clipboard
/// transaction that leaves the selection in place.
pub proof fn lemma_clipboard_platform(d: Desktop, platform: Platform)
    requires
        strategy_of(platform) == Strategy::Clipboard,
    ensures
        selected(d, platform).capture.stage == Stage::Capturing,
        scene_of(selected(d, platform)) == captured(d, false),
{
    let s = Session { capture: selecting(platform), desktop: d };
    lemma_carry_plays(s, 12);
    lemma_play_settles(scene_of(s), 10, 2);
}

/// A transaction that has had the rounds it can need is not changed by more.
pub proof fn lemma_play_settles(s: Scene, rounds: nat, more: nat)
    requires
        rounds_left(s.capture.phase) <= rounds,
    ensures
        play(s, rounds + more) == play(s, rounds),
    decreases rounds,
{
    if s.capture.phase == Phase::Finished {
    } else {
        lemma_round_progress(s);
        lemma_play_settles(round(s), (rounds - 1) as nat, more);
        assert((rounds + more - 1) as nat == (rounds - 1) as nat + more);
    }
}

/// Whether the accessibility query of a capture on `d` fails: the helper
/// cannot answer, or the query itself goes wrong.
pub open spec fn query_fails(d: Desktop) -> bool {
    ax_outcome(d.accessibility) is Err || (d.faults)(d.clock, ActionModel::QueryAccessibility)
}

/// Fallback gating. On a platform with an accessibility interface, when the
/// query fails and the privacy flag is false or not set, the capture ends
/// with the empty text, and the clipboard was neither written nor changed.
/// This holds whichever actions fail.
pub proof fn lemma_fallback_gated(d: Desktop, platform: Platform)
    requires
        strategy_of(platform) == Strategy::Accessibility,
        query_fails(d),
        !consents(d.privacy_flag),
    ensures
        ended(selected(d, platform).capture),
        result_of(selected(d, platform).capture) == Ok::<Seq<char>, CaptureErrorModel>(
            Seq::empty(),
        ),
        selected(d, platform).desktop.writes == d.writes,
        selected(d, platform).desktop.clipboard == d.clipboard,
{
    let s0 = Session { capture: selecting(platform), desktop: d };
    let s1 = turn(s0);
    let s2 = turn(s1);
    assert(s1.capture.stage == Stage::Consulting);
    assert(ended(s2.capture));
    assert(carry(s0, 12) == carry(s1, 11));
    assert(carry(s1, 11) == carry(s2, 10));
    assert(carry(s2, 10) == s2);
}

/// The accessibility path has no side effects. On a platform with an
/// accessibility interface, when the query answers with a text, the capture
/// ends with that text, and the clipboard was neither written nor changed.
pub proof fn lemma_accessibility_answers(d: Desktop, platform: Platform)
    requires
        strategy_of(platform) == Strategy::Accessibility,
        !query_fails(d),
    ensures
        ended(selected(d, platform).capture),
        result_of(selected(d, platform).capture) == ax_outcome(d.accessibility),
        selected(d, platform).desktop.writes == d.writes,
        selected(d, platform).desktop.clipboard == d.clipboard,
{
    let s0 = Session { capture: selecting(platform), desktop: d };
    let s1 = turn(s0);
    assert(ended(s1.capture));
    assert(carry(s0, 12) == carry(s1, 11));
    assert(carry(s1, 11) == s1);
}

/// Clipboard restoration, for the entry point. On every platform and
/// whichever actions fail, the capture ends and the clipboard then holds what
/// it held before, provided that the write that puts the content back does
/// not itself fail.
pub proof fn lemma_selection_restores_clipboard(d: Desktop, platform: Platform)
    requires
        never_fails(d, restore_action(d.clipboard)),
    ensures
        ended(selected(d, platform).capture),
        selected(d, platform).desktop.clipboard == d.clipboard,
{
    let s0 = Session { capture: selecting(platform), desktop: d };
    if strategy_of(platform) == Strategy::Clipboard {
        lemma_clipboard_platform(d, platform);
        lemma_capture_restores_clipboard(d, false);
    } else {
        let s1 = turn(s0);
        assert(carry(s0, 12) == carry(s1, 11));
        if s1.capture.stage == Stage::Settled {
            assert(carry(s1, 11) == s1);
        } else {
            let s2 = turn(s1);
            assert(carry(s1, 11) == carry(s2, 10));
            if s2.capture.stage == Stage::Settled {
                assert(carry(s2, 10) == s2);
            } else {
                lemma_carry_plays(s2, 10);
                assert(scene_of(s2) == Scene { capture: started(false), desktop: s2.desktop });
                assert(s2.desktop.clipboard == d.clipboard);
                assert(never_fails(s2.desktop, restore_action(d.clipboard)));
                lemma_capture_restores_clipboard(s2.desktop, false);
            }
        }
    }
}

/// What a capture reports on a desktop where nothing fails: the answer of the
/// accessibility query where there is an interface and it answers; the empty
/// text where it does not and the user has not consented to the clipboard;
/// and in every other case the selection of the focused application, or the
/// empty text where that is blank.
pub open spec fn expected(d: Desktop, platform: Platform) -> OutcomeModel {
    if strategy_of(platform) == Strategy::Accessibility && ax_outcome(d.accessibility) is Ok {
        ax_outcome(d.accessibility)
    } else if strategy_of(platform) == Strategy::Accessibility && !consents(d.privacy_flag) {
        Ok(Seq::empty())
    } else {
        Ok(reported(d.selection))
    }
}

/// On a desktop where nothing fails, a capture ends with the expected result,
/// and it leaves the clipboard, the selection and the settings as they were.
pub proof fn lemma_selected_as_expected(d: Desktop, platform: Platform)
    requires
        faultless(d),
    ensures
        ended(selected(d, platform).capture),
        result_of(selected(d, platform).capture) == expected(d, platform),
        selected(d, platform).desktop.clipboard == d.clipboard,
        selected(d, platform).desktop.selection == d.selection,
        selected(d, platform).desktop.accessibility == d.accessibility,
        selected(d, platform).desktop.privacy_flag == d.privacy_flag,
        faultless(selected(d, platform).desktop),
{
    let s0 = Session { capture: selecting(platform), desktop: d };
    if strategy_of(platform) == Strategy::Clipboard {
        lemma_clipboard_platform(d, platform);
        lemma_capture_restores_clipboard(d, false);
        lemma_capture_reports_selection(d, false);
        lemma_play_leaves_settings(scene_of(s0), 10);
    } else {
        let s1 = turn(s0);
        assert(carry(s0, 12) == carry(s1, 11));
        if ax_outcome(d.accessibility) is Ok {
            assert(carry(s1, 11) == s1);
        } else {
            let s2 = turn(s1);
            assert(carry(s1, 11) == carry(s2, 10));
            if consents(d.privacy_flag) {
                lemma_carry_plays(s2, 10);
                assert(scene_of(s2) == Scene { capture: started(false), desktop: s2.desktop });
                assert(faultless(s2.desktop));
                lemma_capture_restores_clipboard(s2.desktop, false);
                lemma_capture_reports_selection(s2.desktop, false);
                lemma_play_leaves_settings(scene_of(s2), 10);
            } else {
                assert(carry(s2, 10) == s2);
            }
        }
    }
}

/// Idempotence, for the entry point. On a desktop where nothing fails, a
/// second capture right after the first reports what the first reported, and
/// afterwards the clipboard holds what it held before the first.
pub proof fn lemma_selected_twice(d: Desktop, platform: Platform)
    requires
        faultless(d),
    ensures
        result_of(selected(selected(d, platform).desktop, platform).capture) == result_of(
            selected(d, platform).capture,
        ),
        selected(selected(d, platform).desktop, platform).desktop.clipboard == d.clipboard,
{
    lemma_selected_as_expected(d, platform);
    lemma_selected_as_expected(selected(d, platform).desktop, platform);
}

} // verus!
