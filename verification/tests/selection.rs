use snippet::selection::{
    normalize_selection, CaptureAction, CaptureError, CaptureEvent, ClipboardCapture,
    MAX_SELECTION_CHARS,
};

#[test]
fn normalizes_surrounding_whitespace() {
    assert_eq!(
        normalize_selection("  selected text\n".into()),
        ("selected text".into(), false)
    );
}

#[test]
fn truncates_very_large_selections() {
    let input = "x".repeat(MAX_SELECTION_CHARS + 1);
    let (text, truncated) = normalize_selection(input);

    assert_eq!(text.chars().count(), MAX_SELECTION_CHARS);
    assert!(truncated);
}

#[test]
fn keeps_a_selection_of_exactly_the_limit() {
    let input = format!(" {} ", "é".repeat(MAX_SELECTION_CHARS));
    let (text, truncated) = normalize_selection(input);
    assert_eq!(text.chars().count(), MAX_SELECTION_CHARS);
    assert!(!truncated);
}

fn open(capture: &mut ClipboardCapture, previous: Option<&str>) -> CaptureAction {
    capture.step(CaptureEvent::ClipboardOpened {
        available: true,
        previous_text: previous.map(|t| t.to_string()),
        now_ms: 0,
    })
}

fn run_until_copy(capture: &mut ClipboardCapture, previous: Option<&str>) {
    assert_eq!(open(capture, previous), CaptureAction::CheckKeys { after_sleep_ms: 0 });
    assert_eq!(
        capture.step(CaptureEvent::Keys { modifiers_down: false, now_ms: 5 }),
        CaptureAction::ReadForegroundWindow
    );
    assert_eq!(
        capture.step(CaptureEvent::ForegroundWindow { window: 42 }),
        CaptureAction::ReadSequenceNumber
    );
    assert_eq!(
        capture.step(CaptureEvent::SequenceNumber { value: 7 }),
        CaptureAction::SendCopy
    );
    assert_eq!(
        capture.step(CaptureEvent::CopySent { delivered: true, now_ms: 10 }),
        CaptureAction::Poll { after_sleep_ms: 15 }
    );
}

#[test]
fn captures_and_restores_the_clipboard() {
    let (mut capture, first) = ClipboardCapture::new();
    assert_eq!(first, CaptureAction::OpenClipboard);
    run_until_copy(&mut capture, Some("earlier"));
    assert_eq!(
        capture.step(CaptureEvent::Polled { sequence: 8, now_ms: 25 }),
        CaptureAction::ReadClipboardText
    );
    assert_eq!(
        capture.step(CaptureEvent::ClipboardText { text: Some("  copied \n".into()) }),
        CaptureAction::ReadSequenceNumber
    );
    assert_eq!(
        capture.step(CaptureEvent::SequenceNumber { value: 8 }),
        CaptureAction::RestoreClipboardText { text: "earlier".into() }
    );
    match capture.step(CaptureEvent::ClipboardWritten { ok: true }) {
        CaptureAction::Finish(Ok(selection)) => {
            assert_eq!(selection.text, "copied");
            assert!(!selection.truncated);
            assert!(selection.clipboard_restored);
        }
        other => panic!("unexpected action {other:?}"),
    }
}

#[test]
fn does_not_restore_when_the_clipboard_changed_again() {
    let (mut capture, _) = ClipboardCapture::new();
    run_until_copy(&mut capture, Some("earlier"));
    capture.step(CaptureEvent::Polled { sequence: 8, now_ms: 25 });
    capture.step(CaptureEvent::ClipboardText { text: Some("copied".into()) });
    match capture.step(CaptureEvent::SequenceNumber { value: 9 }) {
        CaptureAction::Finish(Ok(selection)) => {
            assert_eq!(selection.text, "copied");
            assert!(!selection.clipboard_restored);
        }
        other => panic!("unexpected action {other:?}"),
    }
}

#[test]
fn retries_copy_once_then_times_out() {
    let (mut capture, _) = ClipboardCapture::new();
    run_until_copy(&mut capture, None);
    assert_eq!(
        capture.step(CaptureEvent::Polled { sequence: 7, now_ms: 100 }),
        CaptureAction::Poll { after_sleep_ms: 15 }
    );
    assert_eq!(
        capture.step(CaptureEvent::Polled { sequence: 7, now_ms: 360 }),
        CaptureAction::ReadForegroundWindow
    );
    assert_eq!(
        capture.step(CaptureEvent::ForegroundWindow { window: 42 }),
        CaptureAction::SendCopy
    );
    assert_eq!(
        capture.step(CaptureEvent::CopySent { delivered: true, now_ms: 361 }),
        CaptureAction::Poll { after_sleep_ms: 15 }
    );
    assert_eq!(
        capture.step(CaptureEvent::Polled { sequence: 7, now_ms: 800 }),
        CaptureAction::Poll { after_sleep_ms: 15 }
    );
    assert_eq!(
        capture.step(CaptureEvent::Polled { sequence: 7, now_ms: 1210 }),
        CaptureAction::Finish(Err(CaptureError::TimedOut))
    );
}

#[test]
fn stops_when_the_focus_changed_before_the_retry() {
    let (mut capture, _) = ClipboardCapture::new();
    run_until_copy(&mut capture, None);
    capture.step(CaptureEvent::Polled { sequence: 7, now_ms: 400 });
    assert_eq!(
        capture.step(CaptureEvent::ForegroundWindow { window: 43 }),
        CaptureAction::Finish(Err(CaptureError::FocusChanged))
    );
}

#[test]
fn reports_each_capture_failure() {
    let (mut capture, _) = ClipboardCapture::new();
    assert_eq!(
        capture.step(CaptureEvent::ClipboardOpened {
            available: false,
            previous_text: None,
            now_ms: 0
        }),
        CaptureAction::Finish(Err(CaptureError::ClipboardUnavailable))
    );

    let (mut capture, _) = ClipboardCapture::new();
    open(&mut capture, None);
    assert_eq!(
        capture.step(CaptureEvent::Keys { modifiers_down: true, now_ms: 100 }),
        CaptureAction::CheckKeys { after_sleep_ms: 15 }
    );
    assert_eq!(
        capture.step(CaptureEvent::Keys { modifiers_down: true, now_ms: 300 }),
        CaptureAction::Finish(Err(CaptureError::ShortcutStillPressed))
    );

    let (mut capture, _) = ClipboardCapture::new();
    open(&mut capture, None);
    capture.step(CaptureEvent::Keys { modifiers_down: false, now_ms: 1 });
    assert_eq!(
        capture.step(CaptureEvent::ForegroundWindow { window: 0 }),
        CaptureAction::Finish(Err(CaptureError::InputInjectionFailed))
    );

    let (mut capture, _) = ClipboardCapture::new();
    run_until_copy(&mut capture, None);
    capture.step(CaptureEvent::Polled { sequence: 8, now_ms: 25 });
    assert_eq!(
        capture.step(CaptureEvent::ClipboardText { text: Some(" \t ".into()) }),
        CaptureAction::Finish(Err(CaptureError::NoSelection))
    );
}

#[test]
fn finishes_without_restoring_when_the_clipboard_held_no_text() {
    let (mut capture, _) = ClipboardCapture::new();
    run_until_copy(&mut capture, None);
    capture.step(CaptureEvent::Polled { sequence: 8, now_ms: 25 });
    match capture.step(CaptureEvent::ClipboardText { text: Some("word".into()) }) {
        CaptureAction::Finish(Ok(selection)) => {
            assert_eq!(selection.text, "word");
            assert!(!selection.clipboard_restored);
        }
        other => panic!("unexpected action {other:?}"),
    }
}

#[test]
fn describes_capture_errors() {
    assert_eq!(
        CaptureError::ShortcutStillPressed.user_message(),
        "Release the shortcut keys, then try again."
    );
    assert_eq!(
        CaptureError::UnsupportedPlatform.user_message(),
        "Text capture is currently available on Windows only."
    );
}
