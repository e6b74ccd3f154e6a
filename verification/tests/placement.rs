use selection_capture::placement::{
    captured_text, get_current_monitor, monitor_at, monitor_contains,
    translator_window_placement, Monitor, Placement,
};
use selection_capture::protocol::CaptureError;

fn left() -> Monitor {
    Monitor { x: 0, y: 0, width: 1920, height: 1080 }
}

fn right() -> Monitor {
    Monitor { x: 1920, y: 0, width: 2560, height: 1440 }
}

#[test]
fn edges_belong_to_the_monitor() {
    assert!(monitor_contains(&left(), 0, 0));
    assert!(monitor_contains(&left(), 1920, 1080));
    assert!(!monitor_contains(&left(), 1921, 10));
    assert!(!monitor_contains(&left(), -1, 10));
    assert!(!monitor_contains(&left(), 10, 1081));
}

#[test]
fn huge_monitors_do_not_overflow() {
    let m = Monitor { x: i32::MAX, y: i32::MIN, width: u32::MAX, height: u32::MAX };
    assert!(monitor_contains(&m, i32::MAX, i32::MAX));
    assert!(!monitor_contains(&m, i32::MAX - 1, 0));
}

#[test]
fn first_monitor_with_the_pointer_wins() {
    let monitors = vec![left(), right()];
    assert_eq!(monitor_at(&monitors, 1920, 500), Some(0));
    assert_eq!(monitor_at(&monitors, 1921, 500), Some(1));
    assert_eq!(monitor_at(&monitors, 10, 1200), None);
    assert_eq!(monitor_at(&Vec::new(), 0, 0), None);
}

#[test]
fn current_and_primary_are_fallbacks() {
    let monitors = vec![left()];
    assert_eq!(get_current_monitor(&monitors, Some(right()), None, 5, 5), Some(left()));
    assert_eq!(get_current_monitor(&monitors, Some(right()), Some(left()), -5, 5), Some(right()));
    assert_eq!(get_current_monitor(&monitors, None, Some(right()), -5, 5), Some(right()));
    assert_eq!(get_current_monitor(&monitors, None, None, -5, 5), None);
}

#[test]
fn window_stays_at_the_pointer_when_it_fits() {
    assert_eq!(
        translator_window_placement(false, true, false, (100, 200), (620, 700), left()),
        Placement::At(100, 200)
    );
    assert_eq!(
        translator_window_placement(false, true, true, (1300, 380), (620, 700), left()),
        Placement::At(1300, 380)
    );
}

#[test]
fn window_is_pulled_back_from_the_far_edges() {
    assert_eq!(
        translator_window_placement(false, true, false, (1301, 381), (620, 700), left()),
        Placement::At(1300, 380)
    );
    assert_eq!(
        translator_window_placement(false, true, false, (4400, 100), (620, 700), right()),
        Placement::At(3860, 100)
    );
    assert_eq!(
        translator_window_placement(false, true, false, (10, 10), (3000, 2000), left()),
        Placement::At(-1080, -920)
    );
}

#[test]
fn restoring_wins_over_pointer_and_centre() {
    assert_eq!(
        translator_window_placement(true, true, true, (1, 1), (2, 2), left()),
        Placement::Keep
    );
    assert_eq!(
        translator_window_placement(false, false, true, (1, 1), (2, 2), left()),
        Placement::Centre
    );
    assert_eq!(
        translator_window_placement(false, false, false, (1, 1), (2, 2), left()),
        Placement::Keep
    );
}

#[test]
fn only_captured_text_is_sent() {
    assert_eq!(captured_text(Ok("world".to_string())), Some("world".to_string()));
    assert_eq!(captured_text(Ok(" ".to_string())), Some(" ".to_string()));
    assert_eq!(captured_text(Ok(String::new())), None);
    assert_eq!(
        captured_text(Err(CaptureError::ClipboardAccessFailure("denied".to_string()))),
        None
    );
}
