use goldline::mode::{
    append_notice, area_for, hotkey_failure_notice, mode_failure_notice, next_revision, Area,
    Hotkey, Mode,
};

fn press(m: Mode, key: Hotkey) -> Mode {
    let (v, c) = m.hotkey_request(key);
    m.resolve(v, c)
}

#[test]
fn every_launch_starts_calibrating() {
    let m = Mode::initial();
    assert!(m.visible && m.calibrating);
    assert!(!m.ignores_cursor());
    assert!(m.focusable());
    assert!(m.controls_active());
}

#[test]
fn ctrl_shift_g_toggles_lines_only() {
    let m = Mode { visible: true, calibrating: false };
    assert_eq!(m.hotkey_request(Hotkey::ToggleLines), (Some(false), None));
    let hidden = press(m, Hotkey::ToggleLines);
    assert_eq!(hidden, Mode { visible: false, calibrating: false });
    assert_eq!(press(hidden, Hotkey::ToggleLines), m);
}

#[test]
fn ctrl_shift_l_toggles_calibration_and_shows_lines() {
    let hidden_locked = Mode { visible: false, calibrating: false };
    assert_eq!(hidden_locked.hotkey_request(Hotkey::ToggleCalibration), (Some(true), Some(true)));
    let m = press(hidden_locked, Hotkey::ToggleCalibration);
    assert_eq!(m, Mode { visible: true, calibrating: true });
    let locked = press(m, Hotkey::ToggleCalibration);
    assert_eq!(locked, Mode { visible: true, calibrating: false });
    assert!(locked.ignores_cursor());
    assert!(!locked.focusable());
    assert!(!locked.controls_active());
}

#[test]
fn resolve_keeps_flags_not_given() {
    let m = Mode { visible: true, calibrating: false };
    assert_eq!(m.resolve(None, None), m);
    assert_eq!(m.resolve(Some(false), None), Mode { visible: false, calibrating: false });
    assert_eq!(m.resolve(None, Some(true)), Mode { visible: true, calibrating: true });
    // Recovering the overlay shows it in calibration.
    assert_eq!(m.resolve(Some(true), Some(true)), Mode::initial());
}

#[test]
fn revisions_increase() {
    assert_eq!(next_revision(0), 1);
    assert_eq!(next_revision(41), 42);
}

#[test]
fn notices_accumulate_line_by_line() {
    let first = hotkey_failure_notice("Ctrl+Shift+G");
    assert_eq!(
        first,
        "快捷键 Ctrl+Shift+G 注册失败，可使用面板按钮。请关闭占用快捷键的应用后重启。"
    );
    let one = append_notice(None, &first);
    assert_eq!(one, first);
    let second = hotkey_failure_notice("Ctrl+Shift+L");
    let both = append_notice(Some(one), &second);
    assert_eq!(both, format!("{first}\n{second}"));
    assert_eq!(mode_failure_notice("boom"), "切换辅助窗口失败：boom");
}

#[test]
fn saved_position_picks_first_holding_area() {
    let areas = vec![
        Area { x: 0, y: 0, width: 1920, height: 1080 },
        Area { x: -1920, y: -200, width: 1920, height: 1200 },
        Area { x: -1920, y: -200, width: 4000, height: 4000 },
    ];
    assert_eq!(area_for(&areas, 80, 100), Some(0));
    assert_eq!(area_for(&areas, -1000, 40), Some(1));
    // Right and bottom edges belong to the next monitor.
    assert_eq!(area_for(&areas, 1920, 100), Some(2));
    assert_eq!(area_for(&areas, 5000, 5000), None);
    assert!(areas[1].contains(-1920, -200));
    assert!(!areas[1].contains(0, 0));
    // Extreme corners do not overflow.
    let wide = Area { x: i32::MAX, y: i32::MAX, width: u32::MAX, height: u32::MAX };
    assert!(wide.contains(i32::MAX, i32::MAX));
}
