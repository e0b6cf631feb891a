use raspberry_eye::{
    alert_message, attachment_file_name, display_timestamp, decimal_text, Camera, CaptureError, DiscordClient,
    LoopAction, LoopEvent, MotionEvent, NotificationOutcome, Orchestrator, Phase, ProcessReport,
};

fn camera() -> Camera {
    Camera::new(
        "capture.py".to_string(),
        "images".to_string(),
        "%Y%m%d_%H%M%S.jpg".to_string(),
        1920,
        1080,
    )
}

fn report(success: bool, stderr: &str) -> ProcessReport {
    ProcessReport { success, stderr: stderr.to_string() }
}

#[test]
fn camera_keeps_its_settings() {
    let c = camera();
    assert_eq!(c.script_path(), "capture.py");
    assert_eq!(c.output_dir(), "images");
    assert_eq!(c.filename_format(), "%Y%m%d_%H%M%S.jpg");
    assert_eq!(c.width(), 1920);
    assert_eq!(c.height(), 1080);
}

#[test]
fn output_path_joins_directory_and_name() {
    let c = camera();
    assert_eq!(c.output_path("20240101_120000.jpg"), "images/20240101_120000.jpg");
    assert_eq!(c.test_path(), "images/test.jpg");
}

#[test]
fn capture_failure_carries_error_text() {
    let r = Camera::capture_result(report(false, "camera not found"), false, "images/a.jpg".to_string());
    match r {
        Err(CaptureError::Failed(text)) => assert!(text.contains("camera not found")),
        other => panic!("unexpected {:?}", other),
    }
}

#[test]
fn capture_without_file_is_distinct_error() {
    let r = Camera::capture_result(report(true, ""), false, "images/a.jpg".to_string());
    match r {
        Err(CaptureError::NotCreated(path)) => assert_eq!(path, "images/a.jpg"),
        other => panic!("unexpected {:?}", other),
    }
}

#[test]
fn capture_failure_wins_over_missing_file() {
    let r = Camera::capture_result(report(false, "boom"), true, "images/a.jpg".to_string());
    assert!(matches!(r, Err(CaptureError::Failed(_))));
}

#[test]
fn capture_success_returns_path() {
    let r = Camera::capture_result(report(true, ""), true, "images/a.jpg".to_string());
    assert_eq!(r.unwrap(), "images/a.jpg");
}

#[test]
fn self_test_result() {
    assert!(Camera::test_result(report(true, ""), true, "images/test.jpg".to_string()).is_ok());
    match Camera::test_result(report(false, "no camera"), false, "images/test.jpg".to_string()) {
        Err(CaptureError::Failed(text)) => assert_eq!(text, "no camera"),
        other => panic!("unexpected {:?}", other),
    }
}

#[test]
fn self_test_without_image_fails() {
    match Camera::test_result(report(true, ""), false, "images/test.jpg".to_string()) {
        Err(CaptureError::NotCreated(path)) => assert_eq!(path, "images/test.jpg"),
        other => panic!("unexpected {:?}", other),
    }
}

#[test]
fn bad_request_outcome() {
    let o = NotificationOutcome::from_response(400, Some("bad request".to_string()));
    assert!(!o.success);
    let d = o.detail.unwrap();
    assert!(d.contains("400"));
    assert!(d.contains("bad request"));
    assert_eq!(d, "Discord webhook failed with status 400: bad request");
}

#[test]
fn unreadable_body_gets_placeholder() {
    let o = NotificationOutcome::from_response(503, None);
    assert!(!o.success);
    assert_eq!(o.detail.unwrap(), "Discord webhook failed with status 503: Unable to read response body");
}

#[test]
fn success_range_outcome() {
    for s in [200u16, 204, 299] {
        let o = NotificationOutcome::from_response(s, Some("ok".to_string()));
        assert!(o.success);
        assert!(o.detail.is_none());
    }
    assert!(!NotificationOutcome::from_response(199, None).success);
    assert!(!NotificationOutcome::from_response(300, None).success);
}

#[test]
fn read_and_transport_failures() {
    let r = NotificationOutcome::read_failed("No such file");
    assert!(!r.success);
    assert_eq!(r.detail.unwrap(), "Failed to read image file: No such file");
    let t = NotificationOutcome::transport_failed("connection refused");
    assert!(!t.success);
    assert_eq!(t.detail.unwrap(), "Failed to send Discord webhook: connection refused");
}

#[test]
fn decimal_text_values() {
    assert_eq!(decimal_text(0), "0");
    assert_eq!(decimal_text(7), "7");
    assert_eq!(decimal_text(10), "10");
    assert_eq!(decimal_text(404), "404");
    assert_eq!(decimal_text(65535), "65535");
}

#[test]
fn attachment_name_from_path() {
    assert_eq!(attachment_file_name("images/20240101_120000.jpg"), "20240101_120000.jpg");
    assert_eq!(attachment_file_name("/"), "motion.jpg");
    assert_eq!(attachment_file_name("images/.."), "motion.jpg");
}

#[test]
fn alert_message_text() {
    assert_eq!(
        alert_message("2024-01-01 12:00:00"),
        "**Motion Detected!**\n\nTimestamp: `2024-01-01 12:00:00`\nLocation: Raspberry Pi"
    );
}

#[test]
fn discord_client_settings() {
    let c = DiscordClient::new("https://example.invalid/hook".to_string());
    assert_eq!(c.webhook_url(), "https://example.invalid/hook");
    assert_eq!(DiscordClient::test_message(), "Raspberry Eye: Connection test successful!");
    assert!(DiscordClient::test_passed(204));
    assert!(!DiscordClient::test_passed(404));
}

#[test]
fn one_detection_one_capture_one_notification() {
    for success in [true, false] {
        let mut o = Orchestrator::new();
        assert_eq!(o.phase(), Phase::Idle);
        assert!(matches!(o.step(LoopEvent::Motion(MotionEvent::Detected)), LoopAction::Capture));
        assert_eq!(o.phase(), Phase::Capturing);
        match o.step(LoopEvent::Captured("images/a.jpg".to_string())) {
            LoopAction::Notify(p) => assert_eq!(p, "images/a.jpg"),
            other => panic!("unexpected {:?}", other),
        }
        assert_eq!(o.phase(), Phase::Notifying);
        let outcome = if success {
            NotificationOutcome::from_response(204, None)
        } else {
            NotificationOutcome::from_response(400, Some("bad request".to_string()))
        };
        assert!(matches!(o.step(LoopEvent::Notified(outcome)), LoopAction::WaitForEvent));
        assert_eq!(o.phase(), Phase::Idle);
    }
}

#[test]
fn failed_capture_returns_to_idle_without_notification() {
    let mut o = Orchestrator::new();
    assert!(matches!(o.step(LoopEvent::Motion(MotionEvent::Detected)), LoopAction::Capture));
    let err = CaptureError::Failed("camera busy".to_string());
    assert!(matches!(o.step(LoopEvent::CaptureFailed(err)), LoopAction::WaitForEvent));
    assert_eq!(o.phase(), Phase::Idle);
}

#[test]
fn channel_closed_terminates_once() {
    let mut o = Orchestrator::new();
    assert!(matches!(o.step(LoopEvent::ChannelClosed), LoopAction::Exit));
    assert_eq!(o.phase(), Phase::Terminated);
    assert!(matches!(o.step(LoopEvent::Motion(MotionEvent::Detected)), LoopAction::Ignore));
    assert!(matches!(o.step(LoopEvent::ChannelClosed), LoopAction::Ignore));
    assert!(matches!(o.step(LoopEvent::Captured("x".to_string())), LoopAction::Ignore));
    assert_eq!(o.phase(), Phase::Terminated);
}

#[test]
fn stray_events_are_ignored() {
    let mut o = Orchestrator::new();
    assert!(matches!(o.step(LoopEvent::Captured("x".to_string())), LoopAction::Ignore));
    assert!(matches!(o.step(LoopEvent::Notified(NotificationOutcome::from_response(200, None))), LoopAction::Ignore));
    assert_eq!(o.phase(), Phase::Idle);
    o.step(LoopEvent::Motion(MotionEvent::Detected));
    assert!(matches!(o.step(LoopEvent::Motion(MotionEvent::Detected)), LoopAction::Ignore));
    assert!(matches!(o.step(LoopEvent::ChannelClosed), LoopAction::Ignore));
    assert_eq!(o.phase(), Phase::Capturing);
}

/// 2024-01-01 12:00:00 UTC.
const NOON: i64 = 1_704_110_400;

#[test]
fn capture_path_from_time_and_pattern() {
    let c = camera();
    assert_eq!(c.capture_path(NOON, 0).unwrap(), "images/20240101_120000.jpg");
    assert_eq!(c.capture_path(NOON, 3600).unwrap(), "images/20240101_130000.jpg");
    assert_eq!(c.capture_path(NOON, -43200).unwrap(), "images/20240101_000000.jpg");
}

#[test]
fn capture_path_with_invalid_pattern() {
    let c = Camera::new("capture.py".to_string(), "images".to_string(), "photo%?".to_string(), 640, 480);
    match c.capture_path(NOON, 0) {
        Err(CaptureError::Filename(p)) => assert_eq!(p, "photo%?"),
        other => panic!("unexpected {:?}", other),
    }
}

#[test]
fn capture_path_with_offset_out_of_range() {
    let c = camera();
    assert!(matches!(c.capture_path(NOON, 86_400), Err(CaptureError::Filename(_))));
}

#[test]
fn display_timestamp_text() {
    assert_eq!(display_timestamp(NOON, 0).unwrap(), "2024-01-01 12:00:00");
    assert_eq!(display_timestamp(0, 0).unwrap(), "1970-01-01 00:00:00");
    assert_eq!(display_timestamp(NOON, 5400).unwrap(), "2024-01-01 13:30:00");
    assert!(display_timestamp(i64::MAX, 0).is_none());
}

#[test]
fn later_detections_captured_after_capture_failure() {
    let mut o = Orchestrator::new();
    for _ in 0..3 {
        assert!(matches!(o.step(LoopEvent::Motion(MotionEvent::Detected)), LoopAction::Capture));
        let err = CaptureError::Failed("exit status 1".to_string());
        assert!(matches!(o.step(LoopEvent::CaptureFailed(err)), LoopAction::WaitForEvent));
        assert_eq!(o.phase(), Phase::Idle);
    }
    assert!(matches!(o.step(LoopEvent::Motion(MotionEvent::Detected)), LoopAction::Capture));
    assert!(matches!(o.step(LoopEvent::Captured("images/b.jpg".to_string())), LoopAction::Notify(_)));
}
