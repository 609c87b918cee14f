use glance::capture_window::encode_png;
use glance::commands::{
    build_capture_preview_base64, capture_monitor_id, check_capture_selection,
    decode_image_base64, decode_jpeg_to_rgba, settings_changes, CaptureGate,
};
use glance::error::AppError;
use glance::models::CaptureRect;

#[test]
fn one_capture_at_a_time() {
    let mut gate = CaptureGate::new();
    assert!(!gate.in_progress());
    assert!(gate.begin().is_ok());
    match gate.begin() {
        Err(AppError::Capture(m)) => assert_eq!(m, "a capture session is already running"),
        other => panic!("{:?}", other),
    }
    assert!(gate.in_progress());
    gate.finish();
    assert!(gate.begin().is_ok());
}

#[test]
fn small_selections_are_refused() {
    let ok = CaptureRect { x: 0, y: 0, width: 5, height: 5 };
    assert!(check_capture_selection(&ok).is_ok());
    let thin = CaptureRect { x: 0, y: 0, width: 4, height: 100 };
    match check_capture_selection(&thin) {
        Err(AppError::Capture(m)) => assert_eq!(m, "selection too small"),
        other => panic!("{:?}", other),
    }
}

#[test]
fn monitor_id_names_the_rectangle() {
    let r = CaptureRect { x: 12, y: 0, width: 300, height: 4000000000 };
    assert_eq!(capture_monitor_id(&r), "capture:12:0:300:4000000000");
}

#[test]
fn settings_change_actions() {
    let c = settings_changes(false, true, "A", "A");
    assert_eq!(c.autostart, Some(true));
    assert!(c.unregister_hotkey.is_none() && c.register_hotkey.is_none());
    let c = settings_changes(true, true, "A", "B");
    assert_eq!(c.autostart, None);
    assert_eq!(c.unregister_hotkey.as_deref(), Some("A"));
    assert_eq!(c.register_hotkey.as_deref(), Some("B"));
    let c = settings_changes(true, false, "", "B");
    assert_eq!(c.autostart, Some(false));
    assert!(c.unregister_hotkey.is_none());
    let c = settings_changes(true, true, "A", "");
    assert!(c.register_hotkey.is_none());
}

#[test]
fn preview_round_trip() {
    let rgba = vec![10, 20, 30, 255, 40, 50, 60, 255];
    let text = build_capture_preview_base64(&rgba, 2, 1).unwrap();
    let png = decode_image_base64(&text).unwrap();
    assert_eq!(png, encode_png(&rgba, 2, 1).unwrap());
    let (pixels, w, h) = decode_jpeg_to_rgba(&png).unwrap();
    assert_eq!((pixels, w, h), (rgba, 2, 1));
    assert!(matches!(build_capture_preview_base64(&[0], 1, 1), Err(AppError::Capture(_))));
}

#[test]
fn undecodable_images() {
    match decode_image_base64("***") {
        Err(AppError::Parse(m)) => assert!(m.starts_with("base64 decode: ")),
        other => panic!("{:?}", other),
    }
    match decode_jpeg_to_rgba(b"plain text") {
        Err(AppError::Capture(m)) => assert!(m.starts_with("image decode: ")),
        other => panic!("{:?}", other),
    }
}
