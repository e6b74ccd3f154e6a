//! Where the translator window goes: which monitor the pointer is on, and the
//! position that keeps the window on that monitor. All in physical pixels.

use vstd::prelude::*;
use crate::protocol::{outcome_view, CaptureError, OutcomeModel};

verus! {

/// A monitor: the position of its top left corner and its size.
#[derive(Clone, Copy, Debug, PartialEq, Eq, Structural)]
pub struct Monitor {
    pub x: i32,
    pub y: i32,
    pub width: u32,
    pub height: u32,
}

/// Whether the point lies on the monitor, its edges included.
pub open spec fn within(m: Monitor, x: int, y: int) -> bool {
    m.x <= x <= m.x + m.width && m.y <= y <= m.y + m.height
}

/// Whether the point lies on the monitor, its edges included.
pub fn monitor_contains(m: &Monitor, x: i32, y: i32) -> (r: bool)
    ensures
        r == within(*m, x as int, y as int),
{
    let px: i64 = x as i64;
    let py: i64 = y as i64;
    let left: i64 = m.x as i64;
    let top: i64 = m.y as i64;
    let right: i64 = left + m.width as i64;
    let bottom: i64 = top + m.height as i64;
    left <= px && px <= right && top <= py && py <= bottom
}

/// The place in `monitors` of the first one that the point lies on.
pub open spec fn first_within(monitors: Seq<Monitor>, x: int, y: int) -> Option<int>
    decreases monitors.len(),
{
    if monitors.len() == 0 {
        None
    } else if within(monitors.first(), x, y) {
        Some(0)
    } else {
        match first_within(monitors.drop_first(), x, y) {
            Some(i) => Some(i + 1),
            None => None,
        }
    }
}

/// What `first_within` finds is the first monitor that the point lies on, and
/// it finds nothing only where the point lies on none.
pub proof fn lemma_first_within(monitors: Seq<Monitor>, x: int, y: int)
    ensures
        match first_within(monitors, x, y) {
            Some(i) => 0 <= i < monitors.len() && within(monitors[i], x, y) && forall|j: int|
                0 <= j < i ==> !within(#[trigger] monitors[j], x, y),
            None => forall|j: int|
                0 <= j < monitors.len() ==> !within(#[trigger] monitors[j], x, y),
        },
    decreases monitors.len(),
{
    if monitors.len() > 0 && !within(monitors.first(), x, y) {
        let rest = monitors.drop_first();
        lemma_first_within(rest, x, y);
        match first_within(rest, x, y) {
            Some(i) => {
                assert forall|j: int| 0 <= j < i + 1 implies !within(
                    #[trigger] monitors[j],
                    x,
                    y,
                ) by {
                    if j > 0 {
                        assert(monitors[j] == rest[j - 1]);
                    }
                }
                assert(monitors[i + 1] == rest[i]);
            },
            None => {
                assert forall|j: int| 0 <= j < monitors.len() implies !within(
                    #[trigger] monitors[j],
                    x,
                    y,
                ) by {
                    if j > 0 {
                        assert(monitors[j] == rest[j - 1]);
                    }
                }
            },
        }
    }
}

/// The monitor under the pointer: the first of `monitors` that the point lies
/// on; where it lies on none, the window's current monitor; and where there
/// is none, the primary one.
pub open spec fn monitor_under(
    monitors: Seq<Monitor>,
    current: Option<Monitor>,
    primary: Option<Monitor>,
    x: int,
    y: int,
) -> Option<Monitor> {
    match first_within(monitors, x, y) {
        Some(i) => Some(monitors[i]),
        None => match current {
            Some(m) => Some(m),
            None => primary,
        },
    }
}

/// The place in `monitors` of the first one that the point lies on.
pub fn monitor_at(monitors: &Vec<Monitor>, x: i32, y: i32) -> (r: Option<usize>)
    ensures
        match r {
            Some(i) => i < monitors.len() && first_within(monitors@, x as int, y as int) == Some(
                i as int,
            ),
            None => first_within(monitors@, x as int, y as int) is None,
        },
{
    let mut i: usize = 0;
    while i < monitors.len()
        invariant
            i <= monitors.len(),
            forall|j: int| 0 <= j < i ==> !within(#[trigger] monitors@[j], x as int, y as int),
        decreases monitors.len() - i,
    {
        if monitor_contains(&monitors[i], x, y) {
            proof {
                lemma_first_within(monitors@, x as int, y as int);
            }
            return Some(i);
        }
        i += 1;
    }
    proof {
        lemma_first_within(monitors@, x as int, y as int);
    }
    None
}

/// The monitor that the pointer is on, with the window's current monitor and
/// the primary monitor to fall back on. `None` where all three give nothing.
pub fn get_current_monitor(
    monitors: &Vec<Monitor>,
    current: Option<Monitor>,
    primary: Option<Monitor>,
    x: i32,
    y: i32,
) -> (r: Option<Monitor>)
    ensures
        r == monitor_under(monitors@, current, primary, x as int, y as int),
{
    match monitor_at(monitors, x, y) {
        Some(i) => Some(monitors[i]),
        None => match current {
            Some(m) => Some(m),
            None => primary,
        },
    }
}

/// The coordinate at which a window of extent `size` is put when the pointer
/// is at `pointer`, on a monitor that starts at `origin` and is `extent`
/// long: at the pointer, unless it would reach past the monitor's far edge;
/// then it ends at that edge.
pub open spec fn fitted(pointer: int, size: int, origin: int, extent: int) -> int {
    if pointer + size > origin + extent {
        origin + extent - size
    } else {
        pointer
    }
}

/// Where to put the translator window.
#[derive(Clone, Copy, Debug, PartialEq, Eq, Structural)]
pub enum Placement {
    /// Leave the window where it is.
    Keep,
    /// Put the top left corner at this point.
    At(i64, i64),
    /// Centre the window.
    Centre,
}

/// Where the translator window goes. Restoring the previous position wins
/// over following the pointer, and that over centring.
pub open spec fn placed(
    restore_previous_position: bool,
    to_mouse_position: bool,
    center: bool,
    pointer: (i32, i32),
    window: (u32, u32),
    monitor: Monitor,
) -> Placement {
    if restore_previous_position {
        Placement::Keep
    } else if to_mouse_position {
        Placement::At(
            fitted(pointer.0 as int, window.0 as int, monitor.x as int, monitor.width as int)
                as i64,
            fitted(pointer.1 as int, window.1 as int, monitor.y as int, monitor.height as int)
                as i64,
        )
    } else if center {
        Placement::Centre
    } else {
        Placement::Keep
    }
}

/// The coordinate of a window fits in 64 bits whatever the pointer, the
/// window and the monitor are, so that `placed` loses nothing.
pub proof fn lemma_fitted_in_range(pointer: i32, size: u32, origin: i32, extent: u32)
    ensures
        fitted(pointer as int, size as int, origin as int, extent as int) as i64 == fitted(
            pointer as int,
            size as int,
            origin as int,
            extent as int,
        ),
{
}

/// One coordinate of the window's position.
fn fit(pointer: i32, size: u32, origin: i32, extent: u32) -> (r: i64)
    ensures
        r == fitted(pointer as int, size as int, origin as int, extent as int),
{
    let p: i64 = pointer as i64;
    let s: i64 = size as i64;
    let far: i64 = origin as i64 + extent as i64;
    if p + s > far {
        far - s
    } else {
        p
    }
}

/// Where to put the translator window of size `window` when the pointer is at
/// `pointer` on `monitor`.
pub fn translator_window_placement(
    restore_previous_position: bool,
    to_mouse_position: bool,
    center: bool,
    pointer: (i32, i32),
    window: (u32, u32),
    monitor: Monitor,
) -> (r: Placement)
    ensures
        r == placed(restore_previous_position, to_mouse_position, center, pointer, window, monitor),
{
    if restore_previous_position {
        Placement::Keep
    } else if to_mouse_position {
        Placement::At(
            fit(pointer.0, window.0, monitor.x, monitor.width),
            fit(pointer.1, window.1, monitor.y, monitor.height),
        )
    } else if center {
        Placement::Centre
    } else {
        Placement::Keep
    }
}

/// A window put by `fitted` does not reach past the monitor's far edge, is
/// never moved away from that edge, and stays at the pointer whenever it fits
/// there.
pub proof fn lemma_fitted_stays_on_monitor(pointer: int, size: int, origin: int, extent: int)
    ensures
        fitted(pointer, size, origin, extent) <= pointer,
        pointer + size <= origin + extent ==> fitted(pointer, size, origin, extent) == pointer,
        fitted(pointer, size, origin, extent) + size <= origin + extent,
{
}

/// The text to hand to the translator window after a capture: the captured
/// text where there is one, and nothing where the capture failed or found no
/// selection.
pub open spec fn text_to_send(outcome: OutcomeModel) -> Option<Seq<char>> {
    match outcome {
        Ok(text) if text.len() > 0 => Some(text),
        _ => None,
    }
}

/// The view of an optional text.
pub open spec fn sent_view(text: Option<String>) -> Option<Seq<char>> {
    match text {
        Some(t) => Some(t@),
        None => None,
    }
}

/// What the window is to be filled with after a capture. A failed capture
/// counts as no selection.
pub fn captured_text(outcome: Result<String, CaptureError>) -> (r: Option<String>)
    ensures
        sent_view(r) == text_to_send(outcome_view(outcome)),
{
    match outcome {
        Ok(text) => {
            if text.as_str().is_empty() {
                None
            } else {
                Some(text)
            }
        },
        Err(_) => None,
    }
}

} // verus!
