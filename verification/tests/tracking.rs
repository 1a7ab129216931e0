use goldline::tracking::{
    assess, capture_failed, conclude, deliveries, preview_failure, preview_report,
    renders_preview, settle, Filter, Gate, Phase, Report, Status, Tracker,
};
use std::time::{Duration, Instant};

// The step the overlay accepts between two frames: less than a quarter second
// apart, and no larger than 10 degrees plus 240 degrees per second.
fn plausible(previous: f64, time: Instant, next: f64, now: Instant) -> bool {
    let dt = now.saturating_duration_since(time).as_secs_f64();
    dt < 0.25 && (next - previous).abs() <= 10.0 + dt * 240.0
}

#[test]
fn requires_reacquisition_after_jump_loss_and_stall() {
    let mut filter = Filter::new();
    let now = Instant::now();
    assert_eq!(filter.push(Some(-40.0), now, plausible), None);
    assert_eq!(
        filter.push(Some(-38.0), now + Duration::from_millis(33), plausible),
        Some(-38.0)
    );
    assert_eq!(
        filter.push(Some(50.0), now + Duration::from_millis(66), plausible),
        None
    );
    assert_eq!(
        filter.push(Some(51.0), now + Duration::from_millis(99), plausible),
        Some(51.0)
    );
    assert_eq!(filter.push(None, now + Duration::from_millis(120), plausible), None);
    assert_eq!(
        filter.push(Some(51.0), now + Duration::from_millis(132), plausible),
        None
    );
    assert_eq!(
        filter.push(Some(52.0), now + Duration::from_secs(1), plausible),
        None
    );
}

#[test]
fn reset_forgets_the_reference() {
    let mut filter = Filter::new();
    assert_eq!(filter.push(Some(1u32), 0u64, |_, _, _, _| true), None);
    assert_eq!(filter.push(Some(2u32), 1u64, |_, _, _, _| true), Some(2));
    filter.reset();
    assert_eq!(filter.push(Some(3u32), 2u64, |_, _, _, _| true), None);
    assert_eq!(filter.push(Some(4u32), 3u64, |_, _, _, _| false), None);
}

#[test]
fn tracker_idles_restarts_and_runs() {
    let mut t = Tracker::new();
    assert_eq!(t.gate(false, true, 3), Gate::Idle);
    assert_eq!(t.gate(true, false, 3), Gate::Idle);
    assert_eq!(t.gate(true, true, 3), Gate::Restart);
    assert_eq!(t.gate(true, true, 3), Gate::Run);
    assert_eq!(t.gate(true, true, 3), Gate::Run);
    // Any published change restarts before the next analysis.
    assert_eq!(t.gate(true, true, 4), Gate::Restart);
    assert_eq!(t.gate(true, true, 4), Gate::Run);
    // Turning tracking off and on again restarts even on the same revision.
    assert_eq!(t.gate(false, true, 4), Gate::Idle);
    assert_eq!(t.gate(true, true, 4), Gate::Restart);
}

#[test]
fn previews_are_capped_at_eight_per_second() {
    let mut t = Tracker::new();
    assert_eq!(t.gate(true, true, 1), Gate::Restart);
    assert!(t.wants_preview(1_000));
    t.preview_sent(1_000);
    assert!(!t.wants_preview(1_124));
    assert!(t.wants_preview(1_125));
    assert!(!t.wants_preview(500));
    assert_eq!(t.gate(true, true, 2), Gate::Restart);
    assert!(t.wants_preview(1_001));
}

#[test]
fn analysis_statuses_become_panel_reports() {
    let cases = [
        (Status::Invalid, Phase::Invalid, "invalid", "识别框过小，请扩大范围，完整包含两侧夹爪。"),
        (Status::NoMetal, Phase::NoMetal, "noMetal", "未找到足够的灰色像素，请检查识别框位置或灰色容差。"),
        (
            Status::NoMatch,
            Phase::NoMatch,
            "noMatch",
            "找到灰色区域，但未匹配完整双爪；请检查遮挡、夹子是否张开和识别框范围。",
        ),
        (
            Status::Ambiguous,
            Phase::Ambiguous,
            "ambiguous",
            "多个夹口候选无法区分，请缩小识别框，排除其他灰色物体。",
        ),
        (Status::Detected, Phase::Detected, "detected", "正在跟随夹口中垂线"),
    ];
    for (status, phase, code, message) in cases {
        let (report, keep) = assess(status, false, 40);
        assert!(keep);
        assert_eq!(report.phase, phase);
        assert_eq!(report.phase.code(), code);
        assert_eq!(report.message, message);
    }
}

#[test]
fn moving_or_slow_frames_are_dropped() {
    let (report, keep) = assess(Status::Detected, true, 10);
    assert!(!keep);
    assert_eq!(report.phase, Phase::CaptureError);
    assert_eq!(report.phase.code(), "captureError");
    assert_eq!(report.message, "覆盖窗口正在移动，请稍候。");
    let (report, keep) = assess(Status::Detected, false, 250);
    assert!(!keep);
    assert_eq!(report.phase.code(), "slow");
    assert_eq!(report.message, "画面采集或识别过慢，已暂停方向线；可缩小识别框。");
    let (_, keep) = assess(Status::Detected, false, 249);
    assert!(keep);
}

#[test]
fn capture_errors_are_reported_verbatim() {
    let r = capture_failed("请把控制面板移出短线识别区域。".to_string());
    assert_eq!(r.phase, Phase::CaptureError);
    assert_eq!(r.message, "请把控制面板移出短线识别区域。");
}

fn detected() -> Report {
    assess(Status::Detected, false, 10).0
}

#[test]
fn locked_detections_are_confirmed_before_drawing() {
    let r = settle(detected(), true, false, false);
    assert_eq!(r.phase, Phase::Confirming);
    assert_eq!(r.phase.code(), "confirming");
    assert_eq!(r.message, "正在确认夹口方向…");
    let r = settle(detected(), true, false, true);
    assert_eq!(r.phase, Phase::Detected);
    assert_eq!(r.message, "正在跟随夹口中垂线");
}

#[test]
fn calibration_only_reports_the_detection() {
    let r = settle(detected(), true, true, false);
    assert_eq!(r.phase, Phase::Detected);
    assert_eq!(r.message, "已识别夹口，锁定后在游戏上绘制方向线。");
    let missing = assess(Status::NoMatch, false, 10).0;
    let r = settle(missing, false, true, false);
    assert_eq!(r.phase, Phase::NoMatch);
}

#[test]
fn preview_failures_replace_the_report() {
    let message = preview_failure("disk full");
    assert_eq!(message, "无法生成识别预览：disk full");
    let r = preview_report(detected(), Some(message));
    assert_eq!(r.phase, Phase::PreviewError);
    assert_eq!(r.phase.code(), "previewError");
    assert_eq!(r.message, "无法生成识别预览：disk full");
    let r = preview_report(detected(), None);
    assert_eq!(r.phase, Phase::Detected);
}

fn always(_: i32, _: u64, _: i32, _: u64) -> bool {
    true
}

#[test]
fn locked_round_draws_on_the_second_consistent_detection() {
    let mut filter = Filter::new();
    let first = conclude(
        &mut filter,
        assess(Status::Detected, false, 10),
        Some((-40, 'o', 7u8)),
        false,
        0u64,
        always,
    );
    assert_eq!(first.kept, Some((-40, 'o', 7)));
    assert_eq!(first.angle, None);
    assert_eq!(first.origin, None);
    assert_eq!(first.report.phase, Phase::Confirming);
    assert_eq!(first.report.message, "正在确认夹口方向…");
    let second = conclude(
        &mut filter,
        assess(Status::Detected, false, 10),
        Some((-38, 'p', 9u8)),
        false,
        33u64,
        always,
    );
    assert_eq!(second.angle, Some(-38));
    assert_eq!(second.origin, Some('p'));
    assert_eq!(second.report.phase, Phase::Detected);
    assert_eq!(second.report.message, "正在跟随夹口中垂线");
}

#[test]
fn dropped_frames_reach_the_filter_as_misses() {
    let mut filter = Filter::new();
    conclude(&mut filter, assess(Status::Detected, false, 10), Some((1, (), ())), false, 0u64, always);
    let moved = conclude(&mut filter, assess(Status::Detected, true, 10), Some((2, (), ())), false, 1u64, always);
    assert_eq!(moved.kept, None);
    assert_eq!(moved.angle, None);
    assert_eq!(moved.report.phase, Phase::CaptureError);
    // The miss cleared the filter: the next detection is only a first sighting.
    let next = conclude(&mut filter, assess(Status::Detected, false, 10), Some((3, (), ())), false, 2u64, always);
    assert_eq!(next.angle, None);
    let failed = conclude(&mut filter, (capture_failed("x".to_string()), false), None::<(i32, (), ())>, false, 3u64, always);
    assert_eq!(failed.report.message, "x");
    assert_eq!(failed.angle, None);
}

#[test]
fn calibrating_round_reports_without_drawing() {
    let mut filter = Filter::new();
    for t in 0..3u64 {
        let r = conclude(&mut filter, assess(Status::Detected, false, 10), Some((5, 'o', ())), true, t, always);
        assert_eq!(r.angle, None);
        assert_eq!(r.origin, None);
        assert_eq!(r.kept, Some((5, 'o', ())));
        assert_eq!(r.report.phase, Phase::Detected);
        assert_eq!(r.report.message, "已识别夹口，锁定后在游戏上绘制方向线。");
    }
}

#[test]
fn previews_and_updates_are_delivered_only_for_the_current_state() {
    assert!(renders_preview(false, true));
    assert!(!renders_preview(true, true));
    assert!(!renders_preview(false, false));
    assert_eq!(deliveries(7, 7, true), (true, true));
    assert_eq!(deliveries(7, 7, false), (true, false));
    assert_eq!(deliveries(7, 8, true), (false, false));
}
