//! Two clipboard captures that run at once on one desktop under one
//! coordinator, in any interleaving, and the proof that the copy-paste guard
//! keeps their clipboard transactions apart, so that the clipboard is put
//! back as if each had run alone.

use vstd::prelude::*;
use crate::clipboard::ClipboardModel;
use crate::desktop::{desktop_after, event_for, never_fails, Desktop};
use crate::guard::{acquired, grants, holds, released, GuardDomain, Holders};
use crate::protocol::{ActionModel, EventModel};
use crate::transaction::{
    advanced, pending_action, restore_action, started, CaptureModel, Phase,
};

verus! {

/// The caller identity of the first capture.
pub const FIRST: u64 = 1;

/// The caller identity of the second capture.
pub const SECOND: u64 = 2;

/// Two captures, the guard domains and the desktop that they share.
pub struct Shared {
    pub holders: Holders,
    pub desktop: Desktop,
    pub first: CaptureModel,
    pub second: CaptureModel,
}

/// One capture with what it shares, while it is served.
pub struct Served {
    pub holders: Holders,
    pub desktop: Desktop,
    pub capture: CaptureModel,
}

/// Serves the pending action of the capture of `caller`. A guard is granted
/// only when it is free, and the capture waits, unchanged, when it is not.
/// Every other action goes to the desktop.
pub open spec fn served(v: Served, caller: u64) -> Served {
    match pending_action(v.capture) {
        ActionModel::Acquire(domain) => if grants(v.holders, domain) {
            Served {
                holders: acquired(v.holders, domain, caller),
                desktop: v.desktop,
                capture: advanced(v.capture, EventModel::Done),
            }
        } else {
            v
        },
        ActionModel::Release(domain) => Served {
            holders: released(v.holders, domain, caller),
            desktop: v.desktop,
            capture: advanced(v.capture, EventModel::Done),
        },
        action => Served {
            holders: v.holders,
            desktop: desktop_after(v.desktop, action),
            capture: advanced(v.capture, event_for(v.desktop, action)),
        },
    }
}

/// One step of the two captures: the first moves if `first_moves`, the second
/// otherwise.
pub open spec fn step(s: Shared, first_moves: bool) -> Shared {
    if first_moves {
        let v = served(Served { holders: s.holders, desktop: s.desktop, capture: s.first }, FIRST);
        Shared { holders: v.holders, desktop: v.desktop, first: v.capture, second: s.second }
    } else {
        let v = served(
            Served { holders: s.holders, desktop: s.desktop, capture: s.second },
            SECOND,
        );
        Shared { holders: v.holders, desktop: v.desktop, first: s.first, second: v.capture }
    }
}

/// The two captures after the steps of `schedule`, in its order.
pub open spec fn interleaved(s: Shared, schedule: Seq<bool>) -> Shared
    decreases schedule.len(),
{
    if schedule.len() == 0 {
        s
    } else {
        interleaved(step(s, schedule.first()), schedule.drop_first())
    }
}

/// Two captures that have not begun, with every guard free.
pub open spec fn beginning(d: Desktop, cancel_first: bool, cancel_second: bool) -> Shared {
    Shared {
        holders: Map::empty(),
        desktop: d,
        first: started(cancel_first),
        second: started(cancel_second),
    }
}

/// Whether a transaction in `phase` is inside its window on the clipboard:
/// from the snapshot until the guard is given back after the restore.
pub open spec fn in_window(phase: Phase) -> bool {
    phase != Phase::Acquiring && phase != Phase::Finished
}

/// A capture holds the copy-paste guard exactly while it is inside its
/// window.
pub open spec fn guarded(s: Shared) -> bool {
    &&& in_window(s.first.phase) == holds(s.holders, GuardDomain::CopyPaste, FIRST)
    &&& in_window(s.second.phase) == holds(s.holders, GuardDomain::CopyPaste, SECOND)
}

/// A step keeps the guard with the capture that is inside its window, and
/// with no other.
pub proof fn lemma_step_guarded(s: Shared, first_moves: bool)
    requires
        guarded(s),
    ensures
        guarded(step(s, first_moves)),
{
}

/// Every interleaving keeps the guard with the capture that is inside its
/// window, and with no other.
pub proof fn lemma_interleaved_guarded(s: Shared, schedule: Seq<bool>)
    requires
        guarded(s),
    ensures
        guarded(interleaved(s, schedule)),
    decreases schedule.len(),
{
    if schedule.len() > 0 {
        lemma_step_guarded(s, schedule.first());
        lemma_interleaved_guarded(step(s, schedule.first()), schedule.drop_first());
    }
}

/// Guard mutual exclusion. However two captures that began together are
/// interleaved, they are never both between snapshot and release: while one
/// has the clipboard borrowed, the other has not taken its snapshot yet or
/// has already put the clipboard back and given the guard back.
pub proof fn lemma_captures_never_interleave(
    d: Desktop,
    cancel_first: bool,
    cancel_second: bool,
    schedule: Seq<bool>,
)
    ensures
        !(in_window(interleaved(beginning(d, cancel_first, cancel_second), schedule).first.phase)
            && in_window(
            interleaved(beginning(d, cancel_first, cancel_second), schedule).second.phase,
        )),
{
    lemma_interleaved_guarded(beginning(d, cancel_first, cancel_second), schedule);
}

/// The snapshot waits for the restore. In every interleaving, the step that
/// lets one capture take its snapshot finds the other outside its window, and
/// a capture that finds the other inside its window does not move and
/// changes neither the desktop nor the guards.
pub proof fn lemma_snapshot_waits_for_restore(
    d: Desktop,
    cancel_first: bool,
    cancel_second: bool,
    schedule: Seq<bool>,
    first_moves: bool,
)
    ensures
        ({
            let before = interleaved(beginning(d, cancel_first, cancel_second), schedule);
            let after = step(before, first_moves);
            let (mover, other, moved) = if first_moves {
                (before.first, before.second, after.first)
            } else {
                (before.second, before.first, after.second)
            };
            &&& mover.phase == Phase::Acquiring && moved.phase == Phase::Snapshotting
                ==> !in_window(other.phase)
            &&& mover.phase == Phase::Acquiring && in_window(other.phase) ==> after == before
        }),
{
    lemma_interleaved_guarded(beginning(d, cancel_first, cancel_second), schedule);
}

/// Nobody but the two captures ever holds the copy-paste guard.
pub open spec fn owned(s: Shared) -> bool {
    s.holders.contains_key(GuardDomain::CopyPaste) ==> s.holders[GuardDomain::CopyPaste] == FIRST
        || s.holders[GuardDomain::CopyPaste] == SECOND
}

/// In every interleaving the copy-paste guard stays with the two captures.
pub proof fn lemma_interleaved_owned(s: Shared, schedule: Seq<bool>)
    requires
        owned(s),
    ensures
        owned(interleaved(s, schedule)),
    decreases schedule.len(),
{
    if schedule.len() > 0 {
        lemma_interleaved_owned(step(s, schedule.first()), schedule.drop_first());
    }
}

/// The guard is given back on every path. In every interleaving, a capture
/// that has its result, whether it ended well or failed at any point, no
/// longer holds the copy-paste guard; and when both have ended the guard is
/// free for the next caller.
pub proof fn lemma_guard_given_back(
    d: Desktop,
    cancel_first: bool,
    cancel_second: bool,
    schedule: Seq<bool>,
)
    ensures
        ({
            let s = interleaved(beginning(d, cancel_first, cancel_second), schedule);
            &&& s.first.phase == Phase::Finished ==> !holds(
                s.holders,
                GuardDomain::CopyPaste,
                FIRST,
            )
            &&& s.second.phase == Phase::Finished ==> !holds(
                s.holders,
                GuardDomain::CopyPaste,
                SECOND,
            )
            &&& s.first.phase == Phase::Finished && s.second.phase == Phase::Finished ==> grants(
                s.holders,
                GuardDomain::CopyPaste,
            )
        }),
{
    lemma_interleaved_guarded(beginning(d, cancel_first, cancel_second), schedule);
    lemma_interleaved_owned(beginning(d, cancel_first, cancel_second), schedule);
}

/// Whether a transaction in `phase` has the clipboard borrowed: from the
/// write of the placeholder until the snapshot is written back.
pub open spec fn borrowed(phase: Phase) -> bool {
    in_window(phase) && phase != Phase::Snapshotting && phase != Phase::Releasing
}

/// The two captures treat the clipboard as one would alone: a capture that
/// has the clipboard borrowed has `initial` as its snapshot, and while
/// neither has it borrowed the clipboard holds `initial`.
pub open spec fn intact(s: Shared, initial: ClipboardModel) -> bool {
    &&& guarded(s)
    &&& borrowed(s.first.phase) ==> s.first.snapshot == initial
    &&& borrowed(s.second.phase) ==> s.second.snapshot == initial
    &&& !borrowed(s.first.phase) && !borrowed(s.second.phase) ==> s.desktop.clipboard == initial
}

/// A step keeps the clipboard intact, as long as the write that puts the
/// content back does not fail.
pub proof fn lemma_step_intact(s: Shared, first_moves: bool, initial: ClipboardModel)
    requires
        intact(s, initial),
        never_fails(s.desktop, restore_action(initial)),
    ensures
        intact(step(s, first_moves), initial),
        never_fails(step(s, first_moves).desktop, restore_action(initial)),
{
}

/// Every interleaving keeps the clipboard intact, as long as the write that
/// puts the content back does not fail.
pub proof fn lemma_interleaved_intact(s: Shared, schedule: Seq<bool>, initial: ClipboardModel)
    requires
        intact(s, initial),
        never_fails(s.desktop, restore_action(initial)),
    ensures
        intact(interleaved(s, schedule), initial),
    decreases schedule.len(),
{
    if schedule.len() > 0 {
        lemma_step_intact(s, schedule.first(), initial);
        lemma_interleaved_intact(step(s, schedule.first()), schedule.drop_first(), initial);
    }
}

/// Clipboard restoration, for two captures at once. However two captures
/// that began together are interleaved and whichever of their actions fail,
/// each snapshot that is in use is the content that the clipboard held before
/// either began, and whenever neither capture has the clipboard borrowed, so
/// also when both have ended, the clipboard holds that content again;
/// provided that the write that puts the content back does not itself fail.
pub proof fn lemma_interleaving_restores_clipboard(
    d: Desktop,
    cancel_first: bool,
    cancel_second: bool,
    schedule: Seq<bool>,
)
    requires
        never_fails(d, restore_action(d.clipboard)),
    ensures
        ({
            let s = interleaved(beginning(d, cancel_first, cancel_second), schedule);
            &&& borrowed(s.first.phase) ==> s.first.snapshot == d.clipboard
            &&& borrowed(s.second.phase) ==> s.second.snapshot == d.clipboard
            &&& !borrowed(s.first.phase) && !borrowed(s.second.phase) ==> s.desktop.clipboard
                == d.clipboard
        }),
{
    lemma_interleaved_intact(beginning(d, cancel_first, cancel_second), schedule, d.clipboard);
}

} // verus!
