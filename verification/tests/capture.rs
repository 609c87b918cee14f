use glance::capture::{grim_next, spectacle_fallback_failure, GrimNext};
use glance::capture::{
    captured_screen_from_jpeg, crop_png_bytes, debug_dir, format_wayland_capture_failure,
    interactive_capture_from_png, is_missing_wlr_screencopy_error, looks_like_hyprland_session,
    parse_slurp_geometry, resolve_hyprland_launch_env, retain_live_instances,
    select_hyprland_instance, slurp_selection, wayland_capture_from_png,
    wayland_session_detected, HyprlandInstanceRecord, WaylandLaunchEnv,
};
use glance::capture_window::encode_png;
use glance::error::AppError;

fn record(instance: &str, wl_socket: &str) -> HyprlandInstanceRecord {
    HyprlandInstanceRecord {
        instance: instance.into(),
        wl_socket: wl_socket.into(),
    }
}

fn parse_error(geometry: &str) -> String {
    match parse_slurp_geometry(geometry) {
        Err(AppError::Parse(m)) => m,
        other => panic!("expected a parse error, got {:?}", other),
    }
}

#[test]
fn prefers_current_hyprland_signature() {
    let instances = vec![
        HyprlandInstanceRecord {
            instance: "sig-a".into(),
            wl_socket: "wayland-0".into(),
        },
        HyprlandInstanceRecord {
            instance: "sig-b".into(),
            wl_socket: "wayland-1".into(),
        },
    ];

    let selected =
        select_hyprland_instance(&instances, Some("sig-b"), Some("wayland-0")).unwrap();

    assert_eq!(selected.instance, "sig-b");
    assert_eq!(selected.wl_socket, "wayland-1");
}

#[test]
fn falls_back_to_single_instance_when_env_is_missing() {
    let instances = vec![HyprlandInstanceRecord {
        instance: "sig-a".into(),
        wl_socket: "wayland-0".into(),
    }];

    let selected = select_hyprland_instance(&instances, None, None).unwrap();

    assert_eq!(selected.instance, "sig-a");
}

#[test]
fn selects_by_socket_when_signature_is_unknown() {
    let instances = vec![record("sig-a", "wayland-0"), record("sig-b", "wayland-1")];
    let selected = select_hyprland_instance(&instances, Some("sig-z"), Some("wayland-1")).unwrap();
    assert_eq!(selected.instance, "sig-b");
}

#[test]
fn no_instance_selected_among_several_without_hints() {
    let instances = vec![record("sig-a", "wayland-0"), record("sig-b", "wayland-1")];
    assert!(select_hyprland_instance(&instances, None, None).is_none());
    assert!(select_hyprland_instance(&[], None, None).is_none());
}

#[test]
fn live_instances_drop_incomplete_records() {
    let kept = retain_live_instances(vec![
        record("", "wayland-0"),
        record("sig-b", "wayland-1"),
        record("sig-c", ""),
    ]);
    assert_eq!(kept.len(), 1);
    assert_eq!(kept[0].instance, "sig-b");
}

#[test]
fn launch_env_only_when_it_differs() {
    let instances = vec![record("sig-a", "wayland-0")];
    assert!(resolve_hyprland_launch_env(&instances, Some("sig-a"), Some("wayland-0"), None).is_none());
    let env = resolve_hyprland_launch_env(&instances, None, Some("wayland-0"), Some(b"/run/user/1000".to_vec()))
        .unwrap();
    assert_eq!(env.wayland_display, "wayland-0");
    assert_eq!(env.hyprland_instance_signature.as_deref(), Some("sig-a"));
    assert_eq!(env.xdg_runtime_dir.as_deref(), Some(&b"/run/user/1000"[..]));
}

#[test]
fn session_detection() {
    assert!(wayland_session_detected(Some("wayland"), false));
    assert!(wayland_session_detected(None, true));
    assert!(!wayland_session_detected(Some("x11"), false));
    assert!(looks_like_hyprland_session(true, None, None));
    assert!(looks_like_hyprland_session(false, Some("HyPrLand"), None));
    assert!(looks_like_hyprland_session(false, None, Some("hyprland-uwsm")));
    assert!(!looks_like_hyprland_session(false, Some("KDE"), Some("plasma")));
}

#[test]
fn slurp_geometry_parses() {
    assert_eq!(parse_slurp_geometry("10,20 300x400").unwrap(), (10, 20, 300, 400));
    assert_eq!(parse_slurp_geometry("-5,+7 3x4").unwrap(), (-5, 7, 3, 4));
    assert_eq!(
        parse_slurp_geometry("-2147483648,2147483647 4294967295x0").unwrap(),
        (i32::MIN, i32::MAX, u32::MAX, 0)
    );
}

#[test]
fn slurp_geometry_errors() {
    assert_eq!(parse_error("10,20"), "slurp output missing size");
    assert_eq!(parse_error("1020 3x4"), "slurp output missing coordinates");
    assert_eq!(parse_error("1,2 34"), "slurp output missing dimensions");
    assert_eq!(parse_error("a,2 3x4"), "invalid slurp x: invalid digit found in string");
    assert_eq!(parse_error(",2 3x4"), "invalid slurp x: cannot parse integer from empty string");
    assert_eq!(parse_error("1,- 3x4"), "invalid slurp y: invalid digit found in string");
    assert_eq!(parse_error("1,2 -3x4"), "invalid slurp width: invalid digit found in string");
    assert_eq!(
        parse_error("1,2 4294967296x1"),
        "invalid slurp width: number too large to fit in target type"
    );
    assert_eq!(
        parse_error("-2147483649,0 1x1"),
        "invalid slurp x: number too small to fit in target type"
    );
    assert_eq!(parse_error("1,2 3x"), "invalid slurp height: cannot parse integer from empty string");
}

#[test]
fn slurp_geometry_agrees_with_std_parsing() {
    for text in ["0", "+0", "-0", "+", "-", "", "12a", "2147483647", "2147483648", "-2147483648",
        "-2147483649", "99999999999x", "٣", "00042"] {
        let geometry = format!("{text},0 1x1");
        let ours = parse_slurp_geometry(&geometry);
        match text.parse::<i32>() {
            Ok(v) => assert_eq!(ours.unwrap().0, v),
            Err(e) => match ours {
                Err(AppError::Parse(m)) => assert_eq!(m, format!("invalid slurp x: {e}")),
                other => panic!("{text}: {:?}", other),
            },
        }
        let geometry = format!("0,0 {text}x1");
        let ours = parse_slurp_geometry(&geometry);
        match text.parse::<u32>() {
            Ok(v) => assert_eq!(ours.unwrap().2, v),
            Err(e) => match ours {
                Err(AppError::Parse(m)) => assert_eq!(m, format!("invalid slurp width: {e}")),
                other => panic!("{text}: {:?}", other),
            },
        }
    }
}

#[test]
fn wlr_screencopy_error_detection() {
    assert!(is_missing_wlr_screencopy_error(b"compositor doesn't support the Screen Capture Protocol"));
    assert!(!is_missing_wlr_screencopy_error(b"no outputs"));
    assert!(is_missing_wlr_screencopy_error(b"\xff\xfeSCREEN CAPTURE PROTOCOL missing"));
}

#[test]
fn capture_failure_messages() {
    assert_eq!(format_wayland_capture_failure("grim", b"  oops \n", None), "grim failed: oops");
    let hypr = WaylandLaunchEnv {
        wayland_display: "wayland-1".into(),
        hyprland_instance_signature: Some("sig".into()),
        xdg_runtime_dir: None,
    };
    assert_eq!(
        format_wayland_capture_failure("slurp", b"bad", Some(&hypr)),
        "slurp failed: bad (Hyprland env override: WAYLAND_DISPLAY=wayland-1, HYPRLAND_INSTANCE_SIGNATURE=sig)"
    );
    let plain = WaylandLaunchEnv {
        wayland_display: "wayland-0".into(),
        hyprland_instance_signature: None,
        xdg_runtime_dir: None,
    };
    assert_eq!(
        format_wayland_capture_failure("grim", b"screen capture protocol unsupported", Some(&plain)),
        "grim failed: screen capture protocol unsupported (Wayland env override: WAYLAND_DISPLAY=wayland-0); if this was launched by a desktop entry or app-level global shortcut, prefer binding `glance --capture` directly in `hyprland.conf`"
    );
}

#[test]
fn slurp_outcomes() {
    assert!(slurp_selection(false, Some(1), vec![], b"", None).unwrap().is_none());
    match slurp_selection(false, Some(2), vec![], b"boom", None) {
        Err(AppError::Capture(m)) => assert_eq!(m, "slurp failed: boom"),
        other => panic!("{:?}", other),
    }
    let picked = slurp_selection(true, Some(0), b"10,20 300x400\n".to_vec(), b"", None)
        .unwrap()
        .unwrap();
    assert_eq!(picked.geometry, "10,20 300x400");
    assert_eq!((picked.rect_x, picked.rect_y, picked.width, picked.height), (10, 20, 300, 400));
    assert!(slurp_selection(true, Some(0), b"1,2 3x3".to_vec(), b"", None).unwrap().is_none());
    assert!(slurp_selection(true, Some(0), b"  \n".to_vec(), b"", None).unwrap().is_none());
    match slurp_selection(true, Some(0), vec![0xff], b"", None) {
        Err(AppError::Capture(m)) => assert!(m.starts_with("slurp returned invalid UTF-8: ")),
        other => panic!("{:?}", other),
    }
}

fn sample_png(w: u32, h: u32) -> (Vec<u8>, Vec<u8>) {
    let mut rgba = Vec::new();
    for i in 0..(w * h) {
        rgba.extend_from_slice(&[i as u8, (i * 3) as u8, (i * 7) as u8, 255]);
    }
    let png = encode_png(&rgba, w, h).unwrap();
    (rgba, png)
}

#[test]
fn crop_of_a_full_screenshot() {
    let (rgba, png) = sample_png(4, 3);
    let cropped = crop_png_bytes(&png, 1, 1, 10, 10).unwrap();
    let capture = wayland_capture_from_png(cropped, 1, 1).unwrap();
    assert_eq!((capture.width, capture.height), (3, 2));
    let mut expected = Vec::new();
    for row in 1..3usize {
        expected.extend_from_slice(&rgba[(row * 4 + 1) * 4..(row * 4 + 4) * 4]);
    }
    assert_eq!(capture.rgba_bytes, expected);
    assert_eq!((capture.rect_x, capture.rect_y), (1, 1));
}

#[test]
fn crop_outside_or_empty() {
    let (_, png) = sample_png(4, 3);
    match crop_png_bytes(&png, 5, -2, 7, 8) {
        Err(AppError::Capture(m)) => assert_eq!(
            m,
            "selected region starts outside spectacle screenshot: region=(5, -2) 7x8, screenshot=4x3"
        ),
        other => panic!("{:?}", other),
    }
    match crop_png_bytes(&png, 0, 0, 0, 2) {
        Err(AppError::Capture(m)) => assert_eq!(m, "selected region is empty after spectacle crop"),
        other => panic!("{:?}", other),
    }
    assert!(matches!(crop_png_bytes(b"not an image", 0, 0, 1, 1), Err(AppError::Image(_))));
}

#[test]
fn decoded_captures() {
    let (rgba, png) = sample_png(2, 2);
    let interactive = interactive_capture_from_png(png.clone()).unwrap().unwrap();
    assert_eq!(interactive.rgba_bytes, rgba);
    assert_eq!(interactive.png_bytes, png);
    assert!(interactive_capture_from_png(vec![]).unwrap().is_none());
    assert!(matches!(interactive_capture_from_png(vec![1, 2, 3]), Err(AppError::Image(_))));
    let screen = captured_screen_from_jpeg(png.clone()).unwrap();
    assert_eq!(screen.rgba_bytes, rgba);
    assert_eq!(screen.preview_mime, "image/jpeg");
    assert!(matches!(wayland_capture_from_png(vec![9, 9], 0, 0), Err(AppError::Image(_))));
}

#[test]
fn debug_directory() {
    assert_eq!(debug_dir(), "/tmp/glance-debug/latest");
}

#[test]
fn temporary_screenshot_path() {
    assert_eq!(
        glance::capture::temp_capture_path(1700000000123, "jpg"),
        "/private/tmp/glance-capture-1700000000123.jpg"
    );
    assert_eq!(glance::capture::temp_capture_path(0, "png"), "/private/tmp/glance-capture-0.png");
}

#[test]
fn temporary_wayland_file_name() {
    assert_eq!(
        glance::capture::wayland_capture_file_name(4242, 17, "png"),
        "glance-wayland-capture-4242-17.png"
    );
}

#[test]
fn what_follows_grim() {
    assert!(matches!(grim_next(true, b"anything", None), GrimNext::UseOutput));
    assert!(matches!(
        grim_next(false, b"compositor doesn't support the Screen Capture Protocol", None),
        GrimNext::TrySpectacle
    ));
    match grim_next(false, b"  no outputs\n", None) {
        GrimNext::Fail(glance::error::AppError::Capture(m)) => assert_eq!(m, "grim failed: no outputs"),
        other => panic!("{:?}", other),
    }
    match spectacle_fallback_failure(b"screen capture protocol missing", None, "spectacle failed: x") {
        glance::error::AppError::Capture(m) => assert_eq!(
            m,
            "grim failed: screen capture protocol missing; if this was launched by a desktop entry or app-level global shortcut, prefer binding `glance --capture` directly in `hyprland.conf`; KDE/Spectacle fallback failed: spectacle failed: x"
        ),
        other => panic!("{:?}", other),
    }
}

#[test]
fn hyprctl_failure_message() {
    match glance::capture::hyprctl_failure(b"\t no socket \n") {
        glance::error::AppError::Capture(m) => assert_eq!(m, "hyprctl -j instances failed: no socket"),
        other => panic!("{:?}", other),
    }
}

#[test]
fn unicode_white_space_is_trimmed() {
    match glance::capture::hyprctl_failure("\u{3000}\u{a0}no socket\u{2028}\u{85}".as_bytes()) {
        glance::error::AppError::Capture(m) => assert_eq!(m, "hyprctl -j instances failed: no socket"),
        other => panic!("{:?}", other),
    }
}
