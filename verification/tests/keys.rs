use selection_capture::guard::GuardDomain;
use selection_capture::keys::{
    backspace_click, copy, guard_domain, left_arrow_click, operation_actions, paste, plan,
    right_arrow_click, select_all, up_control_keys, InputOp, Key, Operation, Platform, Script,
    CHORD_PAUSE_MS, PAUSE_LIMIT_MS,
};
use selection_capture::protocol::Action;

#[test]
fn release_steps_on_windows_and_linux() {
    let expected = vec![
        InputOp::Release(Key::Control),
        InputOp::Release(Key::Alt),
        InputOp::Release(Key::Shift),
        InputOp::Release(Key::Space),
        InputOp::Release(Key::Tab),
    ];
    assert_eq!(up_control_keys(Platform::Windows), expected);
    assert_eq!(up_control_keys(Platform::Linux), expected);
}

#[test]
fn release_steps_on_macos() {
    let expected = vec![
        InputOp::Release(Key::Control),
        InputOp::Release(Key::Meta),
        InputOp::Release(Key::Alt),
        InputOp::Release(Key::Shift),
        InputOp::Release(Key::Space),
        InputOp::Release(Key::Tab),
        InputOp::Release(Key::MacOption),
    ];
    assert_eq!(up_control_keys(Platform::MacOs), expected);
}

#[test]
fn copy_chord_pauses_around_the_click() {
    let mut expected = up_control_keys(Platform::Linux);
    expected.push(InputOp::Press(Key::Control));
    expected.push(InputOp::Pause(49));
    expected.push(InputOp::Click(Key::Layout('c')));
    expected.push(InputOp::Pause(49));
    expected.push(InputOp::Release(Key::Control));
    assert_eq!(copy(Platform::Linux), expected);
    assert_eq!(copy(Platform::Windows), expected);
    assert_eq!(expected.len(), 10);
}

#[test]
fn paste_and_select_all_chords_have_no_pause() {
    let mut paste_steps = up_control_keys(Platform::Windows);
    paste_steps.push(InputOp::Press(Key::Control));
    paste_steps.push(InputOp::Click(Key::Layout('v')));
    paste_steps.push(InputOp::Release(Key::Control));
    assert_eq!(paste(Platform::Windows), paste_steps);

    let mut select_steps = up_control_keys(Platform::Linux);
    select_steps.push(InputOp::Press(Key::Control));
    select_steps.push(InputOp::Click(Key::Layout('a')));
    select_steps.push(InputOp::Release(Key::Control));
    assert_eq!(select_all(Platform::Linux), select_steps);
}

#[test]
fn macos_runs_one_script_per_operation() {
    assert_eq!(copy(Platform::MacOs), vec![InputOp::Run(Script::CopySelection, None)]);
    assert_eq!(paste(Platform::MacOs), vec![InputOp::Run(Script::PasteClipboard, None)]);
    assert_eq!(select_all(Platform::MacOs), vec![InputOp::Run(Script::SelectAll, None)]);
    assert_eq!(left_arrow_click(Platform::MacOs, 3), vec![InputOp::Run(Script::Left, Some(3))]);
    assert_eq!(right_arrow_click(Platform::MacOs, 0), vec![InputOp::Run(Script::Right, Some(0))]);
    assert_eq!(
        backspace_click(Platform::MacOs, 7),
        vec![InputOp::Run(Script::Backspace, Some(7))]
    );
}

#[test]
fn navigation_keys_click_once_per_count() {
    assert_eq!(left_arrow_click(Platform::Linux, 0), Vec::<InputOp>::new());
    assert_eq!(
        left_arrow_click(Platform::Linux, 2),
        vec![InputOp::Click(Key::LeftArrow), InputOp::Click(Key::LeftArrow)]
    );
    assert_eq!(right_arrow_click(Platform::Windows, 1), vec![InputOp::Click(Key::RightArrow)]);
    assert_eq!(
        backspace_click(Platform::Windows, 3),
        vec![
            InputOp::Click(Key::Backspace),
            InputOp::Click(Key::Backspace),
            InputOp::Click(Key::Backspace)
        ]
    );
}

#[test]
fn plan_dispatches_to_the_primitive() {
    assert_eq!(plan(Platform::Linux, Operation::CopySelection), copy(Platform::Linux));
    assert_eq!(plan(Platform::MacOs, Operation::PasteClipboard), paste(Platform::MacOs));
    assert_eq!(plan(Platform::Windows, Operation::SelectAll), select_all(Platform::Windows));
    assert_eq!(
        plan(Platform::Linux, Operation::LeftArrow(4)),
        left_arrow_click(Platform::Linux, 4)
    );
    assert_eq!(
        plan(Platform::MacOs, Operation::RightArrow(1)),
        right_arrow_click(Platform::MacOs, 1)
    );
    assert_eq!(
        plan(Platform::Windows, Operation::Backspace(2)),
        backspace_click(Platform::Windows, 2)
    );
}

#[test]
fn each_operation_has_its_guard_domain() {
    assert_eq!(guard_domain(Operation::SelectAll), GuardDomain::SelectAll);
    assert_eq!(guard_domain(Operation::LeftArrow(1)), GuardDomain::InputNavigation);
    assert_eq!(guard_domain(Operation::RightArrow(1)), GuardDomain::InputNavigation);
    assert_eq!(guard_domain(Operation::Backspace(1)), GuardDomain::InputNavigation);
    assert_eq!(guard_domain(Operation::CopySelection), GuardDomain::CopyPaste);
    assert_eq!(guard_domain(Operation::PasteClipboard), GuardDomain::CopyPaste);
}

fn paused(ops: &[InputOp]) -> u64 {
    ops.iter()
        .map(|op| match op {
            InputOp::Pause(ms) => *ms,
            _ => 0,
        })
        .sum()
}

#[test]
fn no_operation_pauses_for_a_hundred_milliseconds() {
    assert_eq!(CHORD_PAUSE_MS, 49);
    assert_eq!(PAUSE_LIMIT_MS, 100);
    let operations = [
        Operation::SelectAll,
        Operation::LeftArrow(5),
        Operation::RightArrow(5),
        Operation::Backspace(5),
        Operation::CopySelection,
        Operation::PasteClipboard,
    ];
    for platform in [Platform::Windows, Platform::MacOs, Platform::Linux] {
        for op in operations {
            assert!(paused(&plan(platform, op)) < 100);
        }
    }
    assert_eq!(paused(&copy(Platform::Linux)), 98);
    assert_eq!(paused(&copy(Platform::Windows)), 98);
    assert_eq!(paused(&copy(Platform::MacOs)), 0);
    assert_eq!(paused(&paste(Platform::Linux)), 0);
}

#[test]
fn standalone_operation_is_acquire_send_release() {
    assert_eq!(
        operation_actions(Operation::CopySelection),
        vec![
            Action::Acquire(GuardDomain::CopyPaste),
            Action::Input(Operation::CopySelection),
            Action::Release(GuardDomain::CopyPaste),
        ]
    );
    assert_eq!(
        operation_actions(Operation::LeftArrow(3)),
        vec![
            Action::Acquire(GuardDomain::InputNavigation),
            Action::Input(Operation::LeftArrow(3)),
            Action::Release(GuardDomain::InputNavigation),
        ]
    );
    assert_eq!(
        operation_actions(Operation::SelectAll),
        vec![
            Action::Acquire(GuardDomain::SelectAll),
            Action::Input(Operation::SelectAll),
            Action::Release(GuardDomain::SelectAll),
        ]
    );
}
