use goldline::input::{passthrough_notice, Pointer};
use goldline::should_ignore;

#[test]
fn drags_keep_their_original_receiver_and_modes_override_capture() {
    assert!(should_ignore(true, false, false, false)); // blank area
    assert!(!should_ignore(true, false, true, true)); // return to control
    assert!(!should_ignore(true, true, false, false)); // drag out of control
    assert!(should_ignore(true, true, true, true)); // game drag crosses control
    assert!(should_ignore(false, true, false, true)); // lock/hide during drag
    assert!(should_ignore(true, false, false, false)); // release over blank
}

#[test]
fn pointer_starts_passing_mouse_through() {
    let p = Pointer::new();
    assert!(p.ignoring());
}

#[test]
fn pointer_switches_only_on_change() {
    let mut p = Pointer::new();
    // Hovering a control while calibrating: take the mouse.
    assert_eq!(p.pending(true, false, true), Some(false));
    p.set_ignoring(false);
    assert!(!p.ignoring());
    // Still over the control: nothing to do.
    assert_eq!(p.pending(true, false, true), None);
    // Dragging out of the control keeps the mouse.
    assert_eq!(p.pending(true, true, false), None);
    // Released over blank space: give it back.
    assert_eq!(p.pending(true, false, false), Some(true));
    p.set_ignoring(true);
    // A game drag crossing a control stays with the game.
    assert_eq!(p.pending(true, true, true), None);
}

#[test]
fn locking_mid_drag_releases_the_mouse() {
    let mut p = Pointer::new();
    p.set_ignoring(false);
    assert_eq!(p.pending(false, true, true), Some(true));
}

#[test]
fn pointer_failure_is_reported_once() {
    let mut p = Pointer::new();
    assert!(p.first_failure());
    assert!(!p.first_failure());
    assert!(!p.first_failure());
    assert!(p.ignoring());
}

#[test]
fn passthrough_notice_wraps_the_error() {
    assert_eq!(
        passthrough_notice("无法读取鼠标位置。"),
        "校准鼠标穿透不可用：无法读取鼠标位置。 可先锁定辅助线操作游戏。"
    );
}
