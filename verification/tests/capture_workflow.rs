use glance::capture_window::{crop_rgba, encode_png};
use glance::capture_workflow::{CaptureWorkflow, WorkflowAction, WorkflowInput, WorkflowPhase};
use glance::error::AppError;
use glance::models::CaptureRect;

fn emitted(a: &WorkflowAction) -> (String, String, bool) {
    match a {
        WorkflowAction::EmitState { message, kind, busy } => (message.clone(), kind.clone(), *busy),
        other => panic!("{:?}", other),
    }
}

fn screenshot() -> Vec<u8> {
    (0..(8 * 6 * 4)).map(|i| i as u8).collect() // 8x6 image
}

#[test]
fn selection_is_encoded_translated_and_shown_in_place() {
    let rgba = screenshot();
    let mut wf = CaptureWorkflow::new(rgba.clone(), 8);
    let rect = CaptureRect { x: 2, y: 1, width: 5, height: 5 };

    let actions = wf.step(WorkflowInput::Selected(rect));
    assert_eq!(actions.len(), 3);
    assert_eq!(emitted(&actions[0]), ("正在翻译…".to_string(), String::new(), true));
    assert!(matches!(actions[1], WorkflowAction::ShowLoading));
    match &actions[2] {
        WorkflowAction::EncodePng { rgba: crop, w, h } => {
            assert_eq!(crop, &crop_rgba(&rgba, 8, 2, 1, 5, 5));
            assert_eq!((*w, *h), (5, 5));
        }
        other => panic!("{:?}", other),
    }
    assert_eq!(wf.phase, WorkflowPhase::Encoding(rect));

    let png = encode_png(&[1, 2, 3, 4], 1, 1).unwrap();
    let actions = wf.step(WorkflowInput::Encoded(Ok(png.clone())));
    match &actions[..] {
        [WorkflowAction::TranslatePng { png: p, rect: r }] => {
            assert_eq!(p, &png);
            assert_eq!(*r, rect);
        }
        other => panic!("{:?}", other),
    }

    // "AQID" is the Base64 of [1, 2, 3]
    let actions = wf.step(WorkflowInput::Translated(Ok("AQID".to_string())));
    match &actions[..] {
        [WorkflowAction::DecodeImage { bytes }] => assert_eq!(bytes, &vec![1, 2, 3]),
        other => panic!("{:?}", other),
    }
    assert_eq!(wf.phase, WorkflowPhase::Decoding(rect));

    let actions = wf.step(WorkflowInput::Decoded(Ok((vec![9; 12], 3, 1))));
    assert_eq!(actions.len(), 2);
    match &actions[0] {
        WorkflowAction::ShowResult { rgba, x, y, w, h } => {
            assert_eq!(rgba, &vec![9; 12]);
            assert_eq!((*x, *y, *w, *h), (2, 1, 3, 1));
        }
        other => panic!("{:?}", other),
    }
    assert_eq!(emitted(&actions[1]), ("翻译完成".to_string(), "ok".to_string(), false));
    assert_eq!(wf.phase, WorkflowPhase::Waiting);
}

#[test]
fn failures_are_reported_and_the_workflow_waits() {
    let rect = CaptureRect { x: 0, y: 0, width: 5, height: 5 };
    let mut wf = CaptureWorkflow::new(screenshot(), 8);
    wf.step(WorkflowInput::Selected(rect));
    let actions = wf.step(WorkflowInput::Encoded(Err(AppError::Capture("x".into()))));
    assert_eq!(emitted(&actions[0]), ("截图编码失败".to_string(), "error".to_string(), false));
    assert_eq!(wf.phase, WorkflowPhase::Waiting);

    wf.step(WorkflowInput::Selected(rect));
    wf.step(WorkflowInput::Encoded(Ok(vec![1])));
    let actions = wf.step(WorkflowInput::Translated(Err(AppError::Api("down".into()))));
    assert_eq!(emitted(&actions[0]), ("翻译失败".to_string(), "error".to_string(), false));
    assert_eq!(wf.phase, WorkflowPhase::Waiting);

    // an empty image, or text that is no Base64, just ends the translation
    for text in ["", "***", "AQJ="] {
        wf.step(WorkflowInput::Selected(rect));
        wf.step(WorkflowInput::Encoded(Ok(vec![1])));
        let actions = wf.step(WorkflowInput::Translated(Ok(text.to_string())));
        assert_eq!(actions.len(), 1);
        assert_eq!(emitted(&actions[0]), ("翻译完成".to_string(), "ok".to_string(), false));
        assert_eq!(wf.phase, WorkflowPhase::Waiting);
    }

    wf.step(WorkflowInput::Selected(rect));
    wf.step(WorkflowInput::Encoded(Ok(vec![1])));
    wf.step(WorkflowInput::Translated(Ok("AQID".to_string())));
    let actions = wf.step(WorkflowInput::Decoded(Err(AppError::Capture("bad".into()))));
    assert_eq!(actions.len(), 1);
    assert_eq!(emitted(&actions[0]), ("翻译完成".to_string(), "ok".to_string(), false));
}

#[test]
fn cancel_finishes() {
    let mut wf = CaptureWorkflow::new(screenshot(), 8);
    assert!(!wf.is_finished());
    let actions = wf.step(WorkflowInput::Cancelled);
    assert!(matches!(actions[0], WorkflowAction::Finish));
    assert_eq!(emitted(&actions[1]), (String::new(), String::new(), false));
    assert!(wf.is_finished());
    // nothing happens afterwards
    assert!(wf.step(WorkflowInput::Selected(CaptureRect { x: 0, y: 0, width: 9, height: 9 })).is_empty());
}

#[test]
fn unexpected_inputs_change_nothing() {
    let mut wf = CaptureWorkflow::new(screenshot(), 8);
    assert!(wf.step(WorkflowInput::Encoded(Ok(vec![1]))).is_empty());
    assert!(wf.step(WorkflowInput::Decoded(Ok((vec![], 0, 0)))).is_empty());
    assert_eq!(wf.phase, WorkflowPhase::Waiting);
}
