use glance::capture_window::{
    blit_pixels, crop_rgba, draw_border, encode_png, finish_selection, rgba_to_softbuffer,
    selection_rect, CaptureEvent, PointerInput, SelectionTracker,
};
use glance::models::CaptureRect;
use glance::error::AppError;

#[test]
fn rgba_becomes_packed_pixels() {
    let px = rgba_to_softbuffer(&[0x12, 0x34, 0x56, 0xff, 1, 2, 3, 0, 9]);
    assert_eq!(px, vec![0x0012_3456, 0x0001_0203]);
    assert!(rgba_to_softbuffer(&[]).is_empty());
}

#[test]
fn finished_selection_events() {
    assert_eq!(
        finish_selection(Some((1, 2, 5, 6))),
        Some(CaptureEvent::Selection { x: 1, y: 2, w: 5, h: 6 })
    );
    assert_eq!(finish_selection(Some((1, 2, 4, 60))), None);
    assert_eq!(finish_selection(Some((1, 2, 60, 4))), None);
    assert_eq!(finish_selection(None), None);
}

#[test]
fn blit_copies_rows_that_fit() {
    let mut dst = vec![0u32; 16];
    let src: Vec<u32> = (1..=16).collect();
    // 2x2 block from (1,1) of a 4-wide source to (2,2) of a 4-wide destination
    blit_pixels(&mut dst, 4, &src, 4, 1, 1, 2, 2, 2, 2);
    let mut expected = vec![0u32; 16];
    expected[10] = 6;
    expected[11] = 7;
    expected[14] = 10;
    expected[15] = 11;
    assert_eq!(dst, expected);

    // the second row would run past the destination: only the first is copied
    let mut dst = vec![0u32; 8];
    blit_pixels(&mut dst, 4, &src, 4, 0, 0, 2, 1, 2, 2);
    assert_eq!(dst, vec![0, 0, 0, 0, 0, 0, 1, 2]);
}

#[test]
fn border_outlines_selection() {
    let mut buf = vec![0u32; 25];
    draw_border(&mut buf, 5, 5, 1, 1, 3, 3, 7, 1);
    let expected: Vec<u32> = vec![
        0, 0, 0, 0, 0, //
        0, 7, 7, 7, 0, //
        0, 7, 0, 7, 0, //
        0, 7, 7, 7, 0, //
        0, 0, 0, 0, 0,
    ];
    assert_eq!(buf, expected);
}

#[test]
fn border_is_clipped_and_thick() {
    let mut buf = vec![0u32; 16];
    draw_border(&mut buf, 4, 4, 2, 2, 10, 10, 9, 2);
    let expected: Vec<u32> = vec![
        0, 0, 0, 0, //
        0, 0, 0, 0, //
        0, 0, 9, 9, //
        0, 0, 9, 9,
    ];
    assert_eq!(buf, expected);
    let mut empty = vec![1u32; 4];
    draw_border(&mut empty, 2, 2, 0, 0, 2, 2, 5, 0);
    assert_eq!(empty, vec![1, 1, 1, 1]);
}

#[test]
fn crop_copies_region() {
    let rgba: Vec<u8> = (0..48).collect(); // 4x3 image
    assert_eq!(crop_rgba(&rgba, 4, 1, 1, 2, 2), vec![20, 21, 22, 23, 24, 25, 26, 27, 36, 37, 38, 39, 40, 41, 42, 43]);
    // rows past the end are left out
    assert_eq!(crop_rgba(&rgba, 4, 0, 2, 1, 3), vec![32, 33, 34, 35]);
    assert!(crop_rgba(&rgba, 4, 0, 0, 0, 3).is_empty());
}

#[test]
fn png_needs_enough_pixels() {
    match encode_png(&[0, 0, 0], 1, 1) {
        Err(AppError::Capture(m)) => assert_eq!(m, "invalid RGBA dimensions for PNG"),
        other => panic!("{:?}", other),
    }
    let png = encode_png(&[1, 2, 3, 4], 1, 1).unwrap();
    assert_eq!(&png[..8], b"\x89PNG\r\n\x1a\n");
}

#[test]
fn crop_agrees_with_image_crop_inside_the_image() {
    let rgba: Vec<u8> = (0..60).collect(); // 5x3 image
    let img = image::RgbaImage::from_raw(5, 3, rgba.clone()).unwrap();
    let expected = image::imageops::crop_imm(&img, 1, 1, 3, 2).to_image().into_raw();
    assert_eq!(crop_rgba(&rgba, 5, 1, 1, 3, 2), expected);
}

#[test]
fn drag_reports_a_selection() {
    let mut t = SelectionTracker::new((0, 0));
    assert!(!t.cursor_moved((3, 3)));
    t.left_pressed();
    assert_eq!(t.drag_start, Some((3, 3)));
    assert!(t.cursor_moved((20, 30)));
    let plan = t.redraw_plan(Some((3, 3, 17, 27)));
    assert_eq!(plan.highlight, Some((3, 3, 17, 27)));
    assert!(!plan.result && plan.spinner.is_none() && !plan.animate);
    assert_eq!(
        t.left_released(Some((3, 3, 17, 27))),
        Some(CaptureEvent::Selection { x: 3, y: 3, w: 17, h: 27 })
    );
    assert!(!t.is_dragging && t.drag_start.is_none());
    assert_eq!(t.selection, Some((3, 3, 17, 27)));
    // releasing again without a drag reports nothing
    assert_eq!(t.left_released(Some((0, 0, 50, 50))), None);
    assert_eq!(t.selection, Some((3, 3, 17, 27)));
}

#[test]
fn tiny_drag_is_kept_but_not_reported() {
    let mut t = SelectionTracker::new((0, 0));
    t.left_pressed();
    assert_eq!(t.left_released(Some((0, 0, 4, 10))), None);
    assert_eq!(t.selection, Some((0, 0, 4, 10)));
    assert_eq!(t.redraw_plan(None).highlight, Some((0, 0, 4, 10)));
    t.left_pressed();
    assert_eq!(t.left_released(Some((0, 0, 0, 10))), None);
    assert_eq!(t.redraw_plan(None).highlight, None);
}

#[test]
fn loading_then_result() {
    let mut t = SelectionTracker::new((0, 0));
    t.left_pressed();
    t.left_released(Some((5, 5, 10, 10)));
    t.show_loading();
    let plan = t.redraw_plan(None);
    assert_eq!(plan.spinner, Some((5, 5, 10, 10)));
    assert!(plan.animate);
    t.show_result();
    let plan = t.redraw_plan(None);
    assert!(plan.result);
    assert!(plan.highlight.is_none() && plan.spinner.is_none() && !plan.animate);
    // a new press drops the translated image
    t.left_pressed();
    assert!(!t.showing_result);
    assert!(t.selection.is_none());
}

#[test]
fn events_to_regions() {
    assert_eq!(
        selection_rect(CaptureEvent::Selection { x: 1, y: 2, w: 30, h: 40 })
            .map(|r: CaptureRect| (r.x, r.y, r.width, r.height)),
        Some((1, 2, 30, 40))
    );
    assert!(selection_rect(CaptureEvent::Cancelled).is_none());
}

#[test]
fn escape_right_click_and_close_cancel() {
    for input in [PointerInput::EscapePressed, PointerInput::RightPressed, PointerInput::CloseRequested] {
        let mut t = SelectionTracker::new((0, 0));
        t.left_pressed();
        let r = t.handle(input);
        assert_eq!(r.event, Some(CaptureEvent::Cancelled));
        assert!(r.close && !r.redraw);
        assert!(t.is_dragging);
    }
}

#[test]
fn pointer_inputs_drive_the_drag() {
    let mut t = SelectionTracker::new((0, 0));
    let r = t.handle(PointerInput::Moved((4, 4)));
    assert!(r.event.is_none() && !r.redraw && !r.close);
    assert!(t.handle(PointerInput::LeftPressed).redraw);
    assert!(t.handle(PointerInput::Moved((30, 40))).redraw);
    let r = t.handle(PointerInput::LeftReleased(Some((4, 4, 26, 36))));
    assert_eq!(r.event, Some(CaptureEvent::Selection { x: 4, y: 4, w: 26, h: 36 }));
    assert!(r.redraw && !r.close);
}
