//! The keystroke simulation layer: for each primitive operation, the exact
//! sequence of synthetic input steps that carries it out on a platform.
//!
//! The functions here only plan. Whoever drives the engine sends the steps to
//! whatever application holds the input focus.

use vstd::prelude::*;
use crate::guard::GuardDomain;
use crate::protocol::{Action, ActionModel};

verus! {

/// The operating systems that the layer knows how to drive.
#[derive(Clone, Copy, Debug, PartialEq, Eq, Structural)]
pub enum Platform {
    Windows,
    MacOs,
    Linux,
}

/// A key of the synthetic keyboard.
#[derive(Clone, Copy, Debug, PartialEq, Eq, Structural)]
pub enum Key {
    Control,
    Meta,
    Alt,
    Shift,
    Space,
    Tab,
    MacOption,
    LeftArrow,
    RightArrow,
    Backspace,
    /// The key that types this character in the current layout.
    Layout(char),
}

/// The helper scripts through which macOS is driven.
#[derive(Clone, Copy, Debug, PartialEq, Eq, Structural)]
pub enum Script {
    SelectAll,
    Left,
    Right,
    Backspace,
    CopySelection,
    PasteClipboard,
}

/// One step of a keystroke plan.
#[derive(Clone, Copy, Debug, PartialEq, Eq, Structural)]
pub enum InputOp {
    /// Hold the key down.
    Press(Key),
    /// Let the key go.
    Release(Key),
    /// Press and release the key.
    Click(Key),
    /// Wait this many milliseconds.
    Pause(u64),
    /// Run a helper script, with a repeat count where the script takes one.
    Run(Script, Option<usize>),
}

/// A primitive operation of the layer.
#[derive(Clone, Copy, Debug, PartialEq, Eq, Structural)]
pub enum Operation {
    SelectAll,
    LeftArrow(usize),
    RightArrow(usize),
    Backspace(usize),
    CopySelection,
    PasteClipboard,
}

/// The pause, in milliseconds, on either side of the key click of a copy chord.
pub const CHORD_PAUSE_MS: u64 = 49;

/// The time, in milliseconds, that the pauses of one operation stay below: no
/// operation blocks for longer than a two-digit number of milliseconds.
pub const PAUSE_LIMIT_MS: u64 = 100;

/// The steps that let go of every key a previous, interrupted burst may have
/// left down.
pub open spec fn release_ops(platform: Platform) -> Seq<InputOp> {
    match platform {
        Platform::MacOs => seq![
            InputOp::Release(Key::Control),
            InputOp::Release(Key::Meta),
            InputOp::Release(Key::Alt),
            InputOp::Release(Key::Shift),
            InputOp::Release(Key::Space),
            InputOp::Release(Key::Tab),
            InputOp::Release(Key::MacOption),
        ],
        _ => seq![
            InputOp::Release(Key::Control),
            InputOp::Release(Key::Alt),
            InputOp::Release(Key::Shift),
            InputOp::Release(Key::Space),
            InputOp::Release(Key::Tab),
        ],
    }
}

/// Control held down around one click of `letter`.
pub open spec fn chord_ops(letter: char) -> Seq<InputOp> {
    seq![
        InputOp::Press(Key::Control),
        InputOp::Click(Key::Layout(letter)),
        InputOp::Release(Key::Control),
    ]
}

/// Control held down around one click of `letter`, with a pause before and
/// after the click.
pub open spec fn paused_chord_ops(letter: char) -> Seq<InputOp> {
    seq![
        InputOp::Press(Key::Control),
        InputOp::Pause(CHORD_PAUSE_MS),
        InputOp::Click(Key::Layout(letter)),
        InputOp::Pause(CHORD_PAUSE_MS),
        InputOp::Release(Key::Control),
    ]
}

/// `n` clicks of `key`.
pub open spec fn click_ops(key: Key, n: usize) -> Seq<InputOp> {
    Seq::new(n as nat, |i: int| InputOp::Click(key))
}

pub open spec fn select_all_ops(platform: Platform) -> Seq<InputOp> {
    match platform {
        Platform::MacOs => seq![InputOp::Run(Script::SelectAll, None)],
        _ => release_ops(platform) + chord_ops('a'),
    }
}

pub open spec fn copy_ops(platform: Platform) -> Seq<InputOp> {
    match platform {
        Platform::MacOs => seq![InputOp::Run(Script::CopySelection, None)],
        _ => release_ops(platform) + paused_chord_ops('c'),
    }
}

pub open spec fn paste_ops(platform: Platform) -> Seq<InputOp> {
    match platform {
        Platform::MacOs => seq![InputOp::Run(Script::PasteClipboard, None)],
        _ => release_ops(platform) + chord_ops('v'),
    }
}

/// `n` presses of a navigation key: one script run with the count on macOS,
/// `n` clicks elsewhere.
pub open spec fn repeat_ops(platform: Platform, key: Key, script: Script, n: usize) -> Seq<
    InputOp,
> {
    match platform {
        Platform::MacOs => seq![InputOp::Run(script, Some(n))],
        _ => click_ops(key, n),
    }
}

/// The steps of `op` on `platform`.
pub open spec fn plan_of(platform: Platform, op: Operation) -> Seq<InputOp> {
    match op {
        Operation::SelectAll => select_all_ops(platform),
        Operation::LeftArrow(n) => repeat_ops(platform, Key::LeftArrow, Script::Left, n),
        Operation::RightArrow(n) => repeat_ops(platform, Key::RightArrow, Script::Right, n),
        Operation::Backspace(n) => repeat_ops(platform, Key::Backspace, Script::Backspace, n),
        Operation::CopySelection => copy_ops(platform),
        Operation::PasteClipboard => paste_ops(platform),
    }
}

/// The guard domain under which `op` runs when it is issued on its own.
pub open spec fn domain_of(op: Operation) -> GuardDomain {
    match op {
        Operation::SelectAll => GuardDomain::SelectAll,
        Operation::LeftArrow(_) | Operation::RightArrow(_) | Operation::Backspace(_) =>
            GuardDomain::InputNavigation,
        Operation::CopySelection | Operation::PasteClipboard => GuardDomain::CopyPaste,
    }
}

/// Releases every modifier and the keys that hot keys are built from, so that
/// none is stuck down when a chord begins.
pub fn up_control_keys(platform: Platform) -> (ops: Vec<InputOp>)
    ensures
        ops@ == release_ops(platform),
{
    let mut ops: Vec<InputOp> = Vec::new();
    ops.push(InputOp::Release(Key::Control));
    match platform {
        Platform::MacOs => {
            ops.push(InputOp::Release(Key::Meta));
        },
        _ => {},
    }
    ops.push(InputOp::Release(Key::Alt));
    ops.push(InputOp::Release(Key::Shift));
    ops.push(InputOp::Release(Key::Space));
    ops.push(InputOp::Release(Key::Tab));
    match platform {
        Platform::MacOs => {
            ops.push(InputOp::Release(Key::MacOption));
        },
        _ => {},
    }
    assert(ops@ =~= release_ops(platform));
    ops
}

/// The release steps followed by control held around one click of `letter`,
/// with a pause of `CHORD_PAUSE_MS` on either side of the click if `paused`.
fn control_chord(platform: Platform, letter: char, paused: bool) -> (ops: Vec<InputOp>)
    ensures
        ops@ == release_ops(platform) + (if paused {
            paused_chord_ops(letter)
        } else {
            chord_ops(letter)
        }),
{
    let mut ops = up_control_keys(platform);
    ops.push(InputOp::Press(Key::Control));
    if paused {
        ops.push(InputOp::Pause(CHORD_PAUSE_MS));
    }
    ops.push(InputOp::Click(Key::Layout(letter)));
    if paused {
        ops.push(InputOp::Pause(CHORD_PAUSE_MS));
    }
    ops.push(InputOp::Release(Key::Control));
    assert(ops@ =~= release_ops(platform) + (if paused {
        paused_chord_ops(letter)
    } else {
        chord_ops(letter)
    }));
    ops
}

/// One run of `script`, with a count where it takes one.
fn script_run(script: Script, count: Option<usize>) -> (ops: Vec<InputOp>)
    ensures
        ops@ == seq![InputOp::Run(script, count)],
{
    let mut ops: Vec<InputOp> = Vec::new();
    ops.push(InputOp::Run(script, count));
    assert(ops@ =~= seq![InputOp::Run(script, count)]);
    ops
}

/// `n` presses of a navigation key.
fn repeat(platform: Platform, key: Key, script: Script, n: usize) -> (ops: Vec<InputOp>)
    ensures
        ops@ == repeat_ops(platform, key, script, n),
{
    match platform {
        Platform::MacOs => script_run(script, Some(n)),
        _ => {
            let mut ops: Vec<InputOp> = Vec::new();
            let mut i: usize = 0;
            while i < n
                invariant
                    i <= n,
                    ops@ == click_ops(key, i),
                decreases n - i,
            {
                ops.push(InputOp::Click(key));
                i += 1;
                assert(ops@ =~= click_ops(key, i));
            }
            ops
        },
    }
}

/// Selects everything in the focused application.
pub fn select_all(platform: Platform) -> (ops: Vec<InputOp>)
    ensures
        ops@ == select_all_ops(platform),
{
    match platform {
        Platform::MacOs => script_run(Script::SelectAll, None),
        _ => control_chord(platform, 'a', false),
    }
}

/// Moves the caret `n` places to the left.
pub fn left_arrow_click(platform: Platform, n: usize) -> (ops: Vec<InputOp>)
    ensures
        ops@ == repeat_ops(platform, Key::LeftArrow, Script::Left, n),
{
    repeat(platform, Key::LeftArrow, Script::Left, n)
}

/// Moves the caret `n` places to the right.
pub fn right_arrow_click(platform: Platform, n: usize) -> (ops: Vec<InputOp>)
    ensures
        ops@ == repeat_ops(platform, Key::RightArrow, Script::Right, n),
{
    repeat(platform, Key::RightArrow, Script::Right, n)
}

/// Deletes `n` characters before the caret.
pub fn backspace_click(platform: Platform, n: usize) -> (ops: Vec<InputOp>)
    ensures
        ops@ == repeat_ops(platform, Key::Backspace, Script::Backspace, n),
{
    repeat(platform, Key::Backspace, Script::Backspace, n)
}

/// Copies the selection of the focused application to the clipboard.
pub fn copy(platform: Platform) -> (ops: Vec<InputOp>)
    ensures
        ops@ == copy_ops(platform),
{
    match platform {
        Platform::MacOs => script_run(Script::CopySelection, None),
        _ => control_chord(platform, 'c', true),
    }
}

/// Pastes the clipboard into the focused application.
pub fn paste(platform: Platform) -> (ops: Vec<InputOp>)
    ensures
        ops@ == paste_ops(platform),
{
    match platform {
        Platform::MacOs => script_run(Script::PasteClipboard, None),
        _ => control_chord(platform, 'v', false),
    }
}

/// The steps of `op` on `platform`.
pub fn plan(platform: Platform, op: Operation) -> (ops: Vec<InputOp>)
    ensures
        ops@ == plan_of(platform, op),
{
    match op {
        Operation::SelectAll => select_all(platform),
        Operation::LeftArrow(n) => left_arrow_click(platform, n),
        Operation::RightArrow(n) => right_arrow_click(platform, n),
        Operation::Backspace(n) => backspace_click(platform, n),
        Operation::CopySelection => copy(platform),
        Operation::PasteClipboard => paste(platform),
    }
}

/// What running `op` on its own takes: its guard domain is taken, the
/// keystrokes are sent, and the domain is given back.
pub open spec fn standalone_actions(op: Operation) -> Seq<ActionModel> {
    seq![
        ActionModel::Acquire(domain_of(op)),
        ActionModel::Input(op),
        ActionModel::Release(domain_of(op)),
    ]
}

/// The actions that carry out `op` on its own, in their order: take the guard
/// domain of `op`, send its keystrokes, give the domain back.
pub fn operation_actions(op: Operation) -> (actions: Vec<Action>)
    ensures
        actions@.map_values(|a: Action| a@) == standalone_actions(op),
{
    let domain = guard_domain(op);
    let mut actions: Vec<Action> = Vec::new();
    actions.push(Action::Acquire(domain));
    actions.push(Action::Input(op));
    actions.push(Action::Release(domain));
    assert(actions@.map_values(|a: Action| a@) =~= standalone_actions(op));
    actions
}

/// The guard domain to hold while `op` runs on its own.
pub fn guard_domain(op: Operation) -> (domain: GuardDomain)
    ensures
        domain == domain_of(op),
{
    match op {
        Operation::SelectAll => GuardDomain::SelectAll,
        Operation::LeftArrow(_) => GuardDomain::InputNavigation,
        Operation::RightArrow(_) => GuardDomain::InputNavigation,
        Operation::Backspace(_) => GuardDomain::InputNavigation,
        Operation::CopySelection => GuardDomain::CopyPaste,
        Operation::PasteClipboard => GuardDomain::CopyPaste,
    }
}

/// The keys that are down after one step, given those that were down before.
/// Clicks, pauses and scripts leave no key down that was not.
pub open spec fn held_after(held: Set<Key>, op: InputOp) -> Set<Key> {
    match op {
        InputOp::Press(key) => held.insert(key),
        InputOp::Release(key) => held.remove(key),
        _ => held,
    }
}

/// The keys that are down after the first `n` steps of `ops`.
pub open spec fn held_after_first(held: Set<Key>, ops: Seq<InputOp>, n: nat) -> Set<Key>
    decreases n,
{
    if n == 0 {
        held
    } else {
        held_after(held_after_first(held, ops, (n - 1) as nat), ops[n - 1])
    }
}

/// The keys that are down after all of `ops`.
pub open spec fn held_after_all(held: Set<Key>, ops: Seq<InputOp>) -> Set<Key> {
    held_after_first(held, ops, ops.len())
}

/// The keys that the release steps let go of.
pub open spec fn reset_keys(platform: Platform) -> Set<Key> {
    match platform {
        Platform::MacOs => set![
            Key::Control,
            Key::Meta,
            Key::Alt,
            Key::Shift,
            Key::Space,
            Key::Tab,
            Key::MacOption
        ],
        _ => set![Key::Control, Key::Alt, Key::Shift, Key::Space, Key::Tab],
    }
}

/// How long the pauses among the first `n` steps of `ops` take together, in
/// milliseconds.
pub open spec fn paused_in_first(ops: Seq<InputOp>, n: nat) -> nat
    decreases n,
{
    if n == 0 {
        0
    } else {
        paused_in_first(ops, (n - 1) as nat) + match ops[n - 1] {
            InputOp::Pause(ms) => ms as nat,
            _ => 0,
        }
    }
}

/// The release steps are a reset: whatever was down before, afterwards
/// exactly the keys outside the reset set that were down are still down. So
/// none of the reset keys is stuck, and a second reset changes nothing.
pub proof fn lemma_release_resets(platform: Platform, held: Set<Key>)
    ensures
        held_after_all(held, release_ops(platform)) == held.difference(reset_keys(platform)),
        held_after_all(held_after_all(held, release_ops(platform)), release_ops(platform))
            == held_after_all(held, release_ops(platform)),
{
    reveal_with_fuel(held_after_first, 8);
    let once = held_after_all(held, release_ops(platform));
    assert(once =~= held.difference(reset_keys(platform)));
    let twice = held_after_all(once, release_ops(platform));
    assert(twice =~= once.difference(reset_keys(platform)));
    assert(twice =~= once);
}

/// A chord leaves no modifier down. Where an operation is built from key
/// steps, it first lets go of the reset keys and ends with control released:
/// afterwards exactly the keys outside the reset set that were down before
/// are still down. Navigation clicks and scripts leave the keys as they were.
pub proof fn lemma_plan_leaves_no_key_down(platform: Platform, op: Operation, held: Set<Key>)
    ensures
        held_after_all(held, plan_of(platform, op)) == if platform != Platform::MacOs && (op
            == Operation::SelectAll || op == Operation::CopySelection || op
            == Operation::PasteClipboard) {
            held.difference(reset_keys(platform))
        } else {
            held
        },
{
    let ops = plan_of(platform, op);
    if platform != Platform::MacOs && (op == Operation::SelectAll || op
        == Operation::CopySelection || op == Operation::PasteClipboard) {
        reveal_with_fuel(held_after_first, 11);
        assert(held_after_all(held, ops) =~= held.difference(reset_keys(platform)));
    } else if platform == Platform::MacOs {
        reveal_with_fuel(held_after_first, 2);
    } else {
        lemma_clicks_hold_nothing(held, ops, ops.len());
    }
}

/// Steps that are all clicks leave the keys as they were.
proof fn lemma_clicks_hold_nothing(held: Set<Key>, ops: Seq<InputOp>, n: nat)
    requires
        n <= ops.len(),
        forall|i: int| 0 <= i < ops.len() ==> (#[trigger] ops[i]) is Click,
    ensures
        held_after_first(held, ops, n) == held,
    decreases n,
{
    if n > 0 {
        lemma_clicks_hold_nothing(held, ops, (n - 1) as nat);
    }
}

/// No operation blocks for longer than a two-digit number of milliseconds:
/// on every platform the pauses of its plan sum to less than `PAUSE_LIMIT_MS`.
pub proof fn lemma_plan_pauses_briefly(platform: Platform, op: Operation)
    ensures
        paused_in_first(plan_of(platform, op), plan_of(platform, op).len()) < PAUSE_LIMIT_MS,
{
    let ops = plan_of(platform, op);
    match op {
        Operation::LeftArrow(_) | Operation::RightArrow(_) | Operation::Backspace(_) => {
            if platform == Platform::MacOs {
                reveal_with_fuel(paused_in_first, 2);
            } else {
                lemma_clicks_pause_nothing(ops, ops.len());
            }
        },
        _ => {
            reveal_with_fuel(paused_in_first, 11);
        },
    }
}

/// Steps that are all clicks do not pause.
proof fn lemma_clicks_pause_nothing(ops: Seq<InputOp>, n: nat)
    requires
        n <= ops.len(),
        forall|i: int| 0 <= i < ops.len() ==> (#[trigger] ops[i]) is Click,
    ensures
        paused_in_first(ops, n) == 0,
    decreases n,
{
    if n > 0 {
        lemma_clicks_pause_nothing(ops, (n - 1) as nat);
    }
}

} // verus!
