use selection_capture::clipboard::{classify, ClipboardContent, ImageData};
use selection_capture::guard::{Coordinator, GuardDomain};
use selection_capture::keys::{Operation, Platform};
use selection_capture::protocol::{Action, CaptureError, Event, ProcessOutput};
use selection_capture::selector::{
    allows_clipboard, get_selected_text, strategy_for, SelectedTextCapture, Stage, Strategy,
};
use selection_capture::transaction::{
    get_selected_text_by_clipboard, selection_from_read_back, ClipboardCapture, Phase,
};

/// A desktop made of plain values, which answers the engine's actions.
struct FakeDesktop {
    clipboard: ClipboardContent,
    selection: String,
    accessibility: Result<ProcessOutput, String>,
    privacy_flag: Option<bool>,
    writes: usize,
    asked: Vec<Action>,
    failing: Vec<usize>,
}

fn desktop(clipboard: ClipboardContent, selection: &str) -> FakeDesktop {
    FakeDesktop {
        clipboard,
        selection: selection.to_string(),
        accessibility: Err("no helper".to_string()),
        privacy_flag: None,
        writes: 0,
        asked: Vec::new(),
        failing: Vec::new(),
    }
}

fn answer(d: &mut FakeDesktop, action: Action) -> Event {
    let at = d.asked.len();
    let event = if d.failing.contains(&at) {
        Event::Failed("injected".to_string())
    } else {
        match &action {
            Action::Acquire(_) | Action::Release(_) | Action::Pause(_) => Event::Done,
            Action::QueryAccessibility => match &d.accessibility {
                Ok(output) => Event::Script(ProcessOutput {
                    success: output.success,
                    stdout: output.stdout.clone(),
                    stderr: output.stderr.clone(),
                }),
                Err(reason) => Event::Failed(reason.clone()),
            },
            Action::ReadPrivacyFlag => Event::PrivacyFlag(d.privacy_flag),
            Action::ReadClipboard => Event::Clipboard(d.clipboard.clone()),
            Action::WriteText(text) => {
                d.clipboard = ClipboardContent::Text(text.clone());
                d.writes += 1;
                Event::Done
            }
            Action::WriteImage(image) => {
                d.clipboard = ClipboardContent::Image(image.clone());
                d.writes += 1;
                Event::Done
            }
            Action::ClearClipboard => {
                d.clipboard = ClipboardContent::Empty;
                d.writes += 1;
                Event::Done
            }
            Action::ReadText => match &d.clipboard {
                ClipboardContent::Text(text) => Event::Text(text.clone()),
                _ => Event::Failed("no text".to_string()),
            },
            Action::Input(Operation::CopySelection) => {
                if !d.selection.is_empty() {
                    d.clipboard = ClipboardContent::Text(d.selection.clone());
                }
                Event::Done
            }
            Action::Input(Operation::RightArrow(n)) | Action::Input(Operation::LeftArrow(n)) => {
                if *n > 0 {
                    d.selection = String::new();
                }
                Event::Done
            }
            Action::Input(_) => Event::Done,
            Action::Finish(_) => Event::Done,
        }
    };
    d.asked.push(action);
    event
}

fn run_transaction(d: &mut FakeDesktop, cancel: bool) -> Result<String, CaptureError> {
    let mut capture: ClipboardCapture = get_selected_text_by_clipboard(cancel);
    for _ in 0..32 {
        match capture.pending() {
            Action::Finish(outcome) => return outcome,
            action => {
                let event = answer(d, action);
                capture.advance(event);
            }
        }
    }
    panic!("the transaction did not finish");
}

fn run_capture(d: &mut FakeDesktop, platform: Platform) -> Result<String, CaptureError> {
    let mut capture: SelectedTextCapture = get_selected_text(platform);
    for _ in 0..32 {
        match capture.pending() {
            Action::Finish(outcome) => return outcome,
            action => {
                let event = answer(d, action);
                capture.advance(event);
            }
        }
    }
    panic!("the capture did not end");
}

fn text(s: &str) -> ClipboardContent {
    ClipboardContent::Text(s.to_string())
}

fn picture() -> ImageData {
    ImageData { width: 2, height: 1, bytes: vec![1, 2, 3, 4, 250, 251, 252, 253] }
}

#[test]
fn fallback_returns_selection_and_restores_text() {
    let mut d = desktop(text("hello"), "world");
    d.accessibility =
        Ok(ProcessOutput { success: false, stdout: vec![], stderr: b"denied".to_vec() });
    d.privacy_flag = Some(true);
    let outcome = run_capture(&mut d, Platform::MacOs);
    assert_eq!(outcome, Ok("world".to_string()));
    assert_eq!(d.clipboard, text("hello"));
}

#[test]
fn fallback_without_selection_restores_image() {
    let mut d = desktop(ClipboardContent::Image(picture()), "");
    d.accessibility = Ok(ProcessOutput { success: false, stdout: vec![], stderr: vec![] });
    d.privacy_flag = Some(true);
    let outcome = run_capture(&mut d, Platform::MacOs);
    assert_eq!(outcome, Ok(String::new()));
    assert_eq!(d.clipboard, ClipboardContent::Image(picture()));
    match &d.clipboard {
        ClipboardContent::Image(image) => {
            assert_eq!(image.bytes, vec![1, 2, 3, 4, 250, 251, 252, 253]);
            assert_eq!((image.width, image.height), (2, 1));
        }
        _ => panic!("the image is gone"),
    }
}

#[test]
fn transaction_asks_for_its_actions_in_order() {
    let mut d = desktop(text("hello"), "world");
    let outcome = run_transaction(&mut d, false);
    assert_eq!(outcome, Ok("world".to_string()));
    assert_eq!(
        d.asked,
        vec![
            Action::Acquire(GuardDomain::CopyPaste),
            Action::ReadClipboard,
            Action::WriteText(String::new()),
            Action::Pause(50),
            Action::Input(Operation::CopySelection),
            Action::Pause(100),
            Action::ReadText,
            Action::WriteText("hello".to_string()),
            Action::Release(GuardDomain::CopyPaste),
        ]
    );
}

#[test]
fn cancelling_transaction_collapses_the_selection_after_the_copy() {
    let mut d = desktop(ClipboardContent::Empty, "world");
    let outcome = run_transaction(&mut d, true);
    assert_eq!(outcome, Ok("world".to_string()));
    assert_eq!(
        d.asked,
        vec![
            Action::Acquire(GuardDomain::CopyPaste),
            Action::ReadClipboard,
            Action::WriteText(String::new()),
            Action::Pause(50),
            Action::Input(Operation::CopySelection),
            Action::Input(Operation::RightArrow(1)),
            Action::Pause(100),
            Action::ReadText,
            Action::ClearClipboard,
            Action::Release(GuardDomain::CopyPaste),
        ]
    );
    assert_eq!(d.selection, "");
    assert_eq!(d.clipboard, ClipboardContent::Empty);
}

#[test]
fn clipboard_is_restored_for_text_image_and_empty() {
    for selection in ["", "picked"] {
        for cancel in [false, true] {
            let mut with_text = desktop(text("kept"), selection);
            run_transaction(&mut with_text, cancel).unwrap();
            assert_eq!(with_text.clipboard, text("kept"));

            let mut with_image = desktop(ClipboardContent::Image(picture()), selection);
            run_transaction(&mut with_image, cancel).unwrap();
            assert_eq!(with_image.clipboard, ClipboardContent::Image(picture()));

            let mut with_nothing = desktop(ClipboardContent::Empty, selection);
            run_transaction(&mut with_nothing, cancel).unwrap();
            assert_eq!(with_nothing.clipboard, ClipboardContent::Empty);
        }
    }
}

#[test]
fn clipboard_is_restored_when_an_action_fails() {
    // The restore is the eighth request without cancelling; every earlier
    // request is made to fail in turn.
    for failing in 0..7 {
        let mut d = desktop(text("kept"), "picked");
        d.failing = vec![failing];
        let outcome = run_transaction(&mut d, false);
        assert!(outcome.is_err(), "request {} failed, yet {:?}", failing, outcome);
        assert_eq!(d.clipboard, text("kept"));
    }
}

#[test]
fn sentinel_on_the_clipboard_means_no_selection() {
    let mut d = desktop(text("hello"), "");
    assert_eq!(run_transaction(&mut d, false), Ok(String::new()));
    assert_eq!(selection_from_read_back(String::new()), "");
}

#[test]
fn blank_read_back_means_no_selection() {
    assert_eq!(selection_from_read_back("  \t\r\n".to_string()), "");
    assert_eq!(selection_from_read_back("\u{a0}\u{2003}\u{3000}".to_string()), "");
    let mut d = desktop(text("hello"), " \n ");
    assert_eq!(run_transaction(&mut d, false), Ok(String::new()));
    assert_eq!(d.clipboard, text("hello"));
}

#[test]
fn read_back_is_reported_untrimmed() {
    assert_eq!(selection_from_read_back("  world \n".to_string()), "  world \n");
    assert_eq!(selection_from_read_back("a".to_string()), "a");
    assert_eq!(selection_from_read_back("\u{200b}".to_string()), "\u{200b}");
}

#[test]
fn capture_twice_gives_the_same_result() {
    let mut d = desktop(text("hello"), "world");
    let first = run_transaction(&mut d, false);
    let second = run_transaction(&mut d, false);
    assert_eq!(first, Ok("world".to_string()));
    assert_eq!(second, first);
    assert_eq!(d.clipboard, text("hello"));
}

#[test]
fn no_consent_means_no_clipboard_access() {
    for flag in [None, Some(false)] {
        let mut d = desktop(text("hello"), "world");
        d.accessibility =
            Ok(ProcessOutput { success: false, stdout: vec![], stderr: b"denied".to_vec() });
        d.privacy_flag = flag;
        let outcome = run_capture(&mut d, Platform::MacOs);
        assert_eq!(outcome, Ok(String::new()));
        assert_eq!(d.writes, 0);
        assert_eq!(d.asked, vec![Action::QueryAccessibility, Action::ReadPrivacyFlag]);
        assert_eq!(d.clipboard, text("hello"));
    }
}

#[test]
fn unreadable_flag_means_no_clipboard_access() {
    let mut d = desktop(text("hello"), "world");
    d.privacy_flag = Some(true);
    d.failing = vec![1];
    let outcome = run_capture(&mut d, Platform::MacOs);
    assert_eq!(outcome, Ok(String::new()));
    assert_eq!(d.writes, 0);
}

#[test]
fn accessibility_answer_is_trimmed_and_leaves_the_clipboard_alone() {
    let mut d = desktop(text("hello"), "world");
    d.accessibility =
        Ok(ProcessOutput { success: true, stdout: b"  world \n".to_vec(), stderr: vec![] });
    d.privacy_flag = Some(true);
    let outcome = run_capture(&mut d, Platform::MacOs);
    assert_eq!(outcome, Ok("world".to_string()));
    assert_eq!(d.asked, vec![Action::QueryAccessibility]);
    assert_eq!(d.writes, 0);
}

#[test]
fn platforms_without_accessibility_go_straight_to_the_clipboard() {
    for platform in [Platform::Windows, Platform::Linux] {
        let mut d = desktop(text("hello"), "world");
        let outcome = run_capture(&mut d, platform);
        assert_eq!(outcome, Ok("world".to_string()));
        assert_eq!(d.asked[0], Action::Acquire(GuardDomain::CopyPaste));
        assert_eq!(d.asked.len(), 9);
        assert_eq!(d.clipboard, text("hello"));
    }
}

#[test]
fn strategy_follows_the_platform() {
    assert_eq!(strategy_for(Platform::MacOs), Strategy::Accessibility);
    assert_eq!(strategy_for(Platform::Windows), Strategy::Clipboard);
    assert_eq!(strategy_for(Platform::Linux), Strategy::Clipboard);
    assert_eq!(get_selected_text(Platform::MacOs).stage(), Stage::Querying);
    assert_eq!(get_selected_text(Platform::Linux).stage(), Stage::Capturing);
}

#[test]
fn consent_needs_the_flag_set_to_true() {
    assert!(allows_clipboard(Some(true)));
    assert!(!allows_clipboard(Some(false)));
    assert!(!allows_clipboard(None));
}

#[test]
fn failed_snapshot_gives_the_guard_back_without_writing() {
    let mut d = desktop(text("hello"), "world");
    d.failing = vec![1];
    let outcome = run_transaction(&mut d, false);
    assert_eq!(outcome, Err(CaptureError::ClipboardAccessFailure("injected".to_string())));
    assert_eq!(
        d.asked,
        vec![
            Action::Acquire(GuardDomain::CopyPaste),
            Action::ReadClipboard,
            Action::Release(GuardDomain::CopyPaste),
        ]
    );
    assert_eq!(d.writes, 0);
}

#[test]
fn failed_sentinel_write_still_restores() {
    let mut d = desktop(text("hello"), "world");
    d.failing = vec![2];
    let outcome = run_transaction(&mut d, false);
    assert_eq!(outcome, Err(CaptureError::ClipboardAccessFailure("injected".to_string())));
    assert_eq!(d.asked[3], Action::WriteText("hello".to_string()));
    assert_eq!(d.asked[4], Action::Release(GuardDomain::CopyPaste));
    assert_eq!(d.asked.len(), 5);
}

#[test]
fn failed_keystrokes_are_an_external_failure() {
    let mut d = desktop(text("hello"), "world");
    d.failing = vec![4];
    let outcome = run_transaction(&mut d, false);
    assert_eq!(outcome, Err(CaptureError::ExternalProcessFailure("injected".to_string())));
    assert_eq!(d.clipboard, text("hello"));
}

#[test]
fn failed_read_back_is_a_clipboard_failure_after_restore() {
    let mut d = desktop(ClipboardContent::Image(picture()), "world");
    d.failing = vec![6];
    let outcome = run_transaction(&mut d, false);
    assert_eq!(outcome, Err(CaptureError::ClipboardAccessFailure("injected".to_string())));
    assert_eq!(d.asked[7], Action::WriteImage(picture()));
    assert_eq!(d.clipboard, ClipboardContent::Image(picture()));
}

#[test]
fn failed_restore_does_not_suppress_the_result() {
    let mut d = desktop(text("hello"), "world");
    d.failing = vec![7];
    let outcome = run_transaction(&mut d, false);
    assert_eq!(outcome, Ok("world".to_string()));
    assert_eq!(d.asked[8], Action::Release(GuardDomain::CopyPaste));
}

#[test]
fn refused_guard_ends_the_capture_at_once() {
    let mut d = desktop(text("hello"), "world");
    d.failing = vec![0];
    let outcome = run_transaction(&mut d, false);
    assert_eq!(outcome, Err(CaptureError::ExternalProcessFailure("injected".to_string())));
    assert_eq!(d.asked, vec![Action::Acquire(GuardDomain::CopyPaste)]);
}

#[test]
fn unexpected_event_counts_as_failure() {
    let mut capture = get_selected_text_by_clipboard(false);
    capture.advance(Event::Done);
    assert_eq!(capture.phase(), Phase::Snapshotting);
    capture.advance(Event::Text("not a snapshot".to_string()));
    assert_eq!(capture.phase(), Phase::Releasing);
    capture.advance(Event::Done);
    assert!(capture.is_finished());
    assert_eq!(
        capture.pending(),
        Action::Finish(Err(CaptureError::ClipboardAccessFailure(String::new())))
    );
}

#[test]
fn finished_transaction_no_longer_changes() {
    let mut d = desktop(text("hello"), "world");
    let mut capture = get_selected_text_by_clipboard(false);
    while !capture.is_finished() {
        let event = answer(&mut d, capture.pending());
        capture.advance(event);
    }
    let before = capture.pending();
    capture.advance(Event::Failed("late".to_string()));
    capture.advance(Event::Text("late".to_string()));
    assert_eq!(capture.pending(), before);
    assert_eq!(before, Action::Finish(Ok("world".to_string())));
    assert_eq!(capture.phase(), Phase::Finished);
}

#[test]
fn classify_prefers_text_over_image() {
    assert_eq!(classify(Some("t".to_string()), Some(picture())), text("t"));
    assert_eq!(classify(Some(String::new()), None), text(""));
    assert_eq!(classify(None, Some(picture())), ClipboardContent::Image(picture()));
    assert_eq!(classify(None, None), ClipboardContent::Empty);
}

fn in_window(capture: &ClipboardCapture) -> bool {
    capture.phase() != Phase::Acquiring && capture.phase() != Phase::Finished
}

/// Serves one action of `capture` for `caller`: guards go to the
/// coordinator, and a guard that is taken leaves the capture waiting.
fn serve(
    d: &mut FakeDesktop,
    guards: &mut Coordinator,
    capture: &mut ClipboardCapture,
    caller: u64,
) {
    match capture.pending() {
        Action::Acquire(domain) => {
            if guards.try_acquire(domain, caller) {
                d.asked.push(Action::Acquire(domain));
                capture.advance(Event::Done);
            }
        }
        Action::Release(domain) => {
            assert!(guards.release(domain, caller));
            d.asked.push(Action::Release(domain));
            capture.advance(Event::Done);
        }
        Action::Finish(_) => {}
        action => {
            let event = answer(d, action);
            capture.advance(event);
        }
    }
}

#[test]
fn concurrent_captures_do_not_interleave() {
    // Every schedule of twelve steps, as the bits of a number: a set bit
    // moves the first capture, a clear one the second.
    for schedule in 0u32..(1 << 12) {
        let mut d = desktop(text("hello"), "world");
        let mut guards = Coordinator::new();
        let mut first = get_selected_text_by_clipboard(false);
        let mut second = get_selected_text_by_clipboard(false);
        for step in 0..12 {
            if schedule & (1 << step) != 0 {
                serve(&mut d, &mut guards, &mut first, 1);
            } else {
                serve(&mut d, &mut guards, &mut second, 2);
            }
            assert!(!(in_window(&first) && in_window(&second)));
            if !in_window(&first) && !in_window(&second) {
                assert_eq!(d.clipboard, text("hello"));
                assert_eq!(guards.holder(GuardDomain::CopyPaste), None);
            }
        }
        while !(first.is_finished() && second.is_finished()) {
            serve(&mut d, &mut guards, &mut first, 1);
            serve(&mut d, &mut guards, &mut second, 2);
            assert!(!(in_window(&first) && in_window(&second)));
        }
        assert_eq!(first.pending(), Action::Finish(Ok("world".to_string())));
        assert_eq!(second.pending(), Action::Finish(Ok("world".to_string())));
        assert_eq!(d.clipboard, text("hello"));
        assert_eq!(guards.holder(GuardDomain::CopyPaste), None);
    }
}

#[test]
fn second_snapshot_comes_after_first_restore() {
    let mut d = desktop(text("hello"), "world");
    let mut guards = Coordinator::new();
    let mut first = get_selected_text_by_clipboard(false);
    let mut second = get_selected_text_by_clipboard(false);
    // The first capture takes the guard and writes the placeholder.
    for _ in 0..3 {
        serve(&mut d, &mut guards, &mut first, 1);
    }
    assert_eq!(d.clipboard, text(""));
    // The second capture waits, however often it is served.
    for _ in 0..5 {
        serve(&mut d, &mut guards, &mut second, 2);
    }
    assert_eq!(second.phase(), Phase::Acquiring);
    while !first.is_finished() {
        serve(&mut d, &mut guards, &mut first, 1);
    }
    assert_eq!(d.clipboard, text("hello"));
    serve(&mut d, &mut guards, &mut second, 2);
    serve(&mut d, &mut guards, &mut second, 2);
    assert_eq!(second.phase(), Phase::WritingSentinel);
    let snapshots: Vec<usize> = d
        .asked
        .iter()
        .enumerate()
        .filter(|(_, action)| **action == Action::ReadClipboard)
        .map(|(at, _)| at)
        .collect();
    let restores: Vec<usize> = d
        .asked
        .iter()
        .enumerate()
        .filter(|(_, action)| **action == Action::WriteText("hello".to_string()))
        .map(|(at, _)| at)
        .collect();
    assert_eq!(snapshots.len(), 2);
    assert_eq!(restores.len(), 1);
    assert!(restores[0] < snapshots[1]);
}

#[test]
fn ended_capture_hands_out_its_result() {
    let mut d = desktop(text("hello"), "world");
    d.accessibility =
        Ok(ProcessOutput { success: true, stdout: b"picked".to_vec(), stderr: vec![] });
    let mut capture = get_selected_text(Platform::MacOs);
    assert!(!capture.is_finished());
    let event = answer(&mut d, capture.pending());
    capture.advance(event);
    assert!(capture.is_finished());
    assert_eq!(capture.stage(), Stage::Settled);
    assert_eq!(capture.pending(), Action::Finish(Ok("picked".to_string())));
    capture.advance(Event::Failed("late".to_string()));
    assert_eq!(capture.pending(), Action::Finish(Ok("picked".to_string())));

    let mut other = get_selected_text(Platform::Linux);
    while !other.is_finished() {
        let event = answer(&mut d, other.pending());
        other.advance(event);
    }
    assert_eq!(other.stage(), Stage::Capturing);
    assert_eq!(other.pending(), Action::Finish(Ok("world".to_string())));
}
