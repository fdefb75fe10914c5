use hotkey_capture::capture::ClipboardRead;
use hotkey_capture::dispatch::{
    dispatch, handle_fullscreen_ocr_shortcut, handle_popup_window_shortcut,
    handle_slide_translation_shortcut, ocr_result_payload, CaptureResult, Dispatch, HandlerAction,
    KeyState, OcrProgress, SelectionProgress, WindowEvent,
};
use hotkey_capture::hotkeys::Slot;

fn count_named(actions: &[HandlerAction], name: &str) -> usize {
    let mut count = 0;
    for action in actions {
        if let HandlerAction::Emit(event) = action {
            if event.name() == name {
                count += 1;
            }
        }
    }
    count
}

#[test]
fn releases_are_ignored() {
    assert_eq!(dispatch(Slot::PopupWindow, KeyState::Released), Dispatch::Ignore);
    assert_eq!(dispatch(Slot::ScreenshotTranslation, KeyState::Released), Dispatch::Ignore);
    assert_eq!(dispatch(Slot::SlideTranslation, KeyState::Released), Dispatch::Ignore);
}

#[test]
fn popup_press_runs_inline() {
    assert_eq!(
        dispatch(Slot::PopupWindow, KeyState::Pressed),
        Dispatch::RunInline(Slot::PopupWindow)
    );
}

#[test]
fn capture_presses_are_spawned() {
    assert_eq!(
        dispatch(Slot::ScreenshotTranslation, KeyState::Pressed),
        Dispatch::Spawn(Slot::ScreenshotTranslation)
    );
    assert_eq!(
        dispatch(Slot::SlideTranslation, KeyState::Pressed),
        Dispatch::Spawn(Slot::SlideTranslation)
    );
}

#[test]
fn popup_handler_shows_the_window() {
    assert_eq!(handle_popup_window_shortcut(), vec![HandlerAction::ShowMainWindow]);
}

#[test]
fn screenshot_press_announces_before_recognition() {
    assert_eq!(
        handle_fullscreen_ocr_shortcut(OcrProgress::Pressed),
        vec![
            HandlerAction::ShowMainWindow,
            HandlerAction::Emit(WindowEvent::OcrPending(true)),
            HandlerAction::RunOcr,
        ]
    );
}

#[test]
fn recognized_text_is_emitted_as_it_is() {
    let outcome = OcrProgress::Recognized(CaptureResult::Text("some text".to_string()));
    assert_eq!(
        handle_fullscreen_ocr_shortcut(outcome),
        vec![HandlerAction::Emit(WindowEvent::OcrResult("some text".to_string()))]
    );
}

#[test]
fn failed_recognition_is_emitted_as_error_text() {
    let outcome = OcrProgress::Recognized(CaptureResult::Failure("no screen".to_string()));
    assert_eq!(
        handle_fullscreen_ocr_shortcut(outcome),
        vec![HandlerAction::Emit(WindowEvent::OcrResult("Error: no screen".to_string()))]
    );
}

#[test]
fn error_payload_has_the_prefix() {
    assert_eq!(ocr_result_payload(CaptureResult::Failure("x".to_string())), "Error: x");
    assert_eq!(ocr_result_payload(CaptureResult::Failure("".to_string())), "Error: ");
    assert_eq!(ocr_result_payload(CaptureResult::Text("x".to_string())), "x");
}

#[test]
fn selection_press_copies_settles_and_reads() {
    assert_eq!(
        handle_slide_translation_shortcut(SelectionProgress::Pressed),
        vec![
            HandlerAction::ShowMainWindow,
            HandlerAction::InjectCopy,
            HandlerAction::Settle { millis: 120 },
            HandlerAction::ReadClipboard,
        ]
    );
}

#[test]
fn captured_selection_prefills_the_window() {
    let read = SelectionProgress::Read(ClipboardRead::Text(" selected ".to_string()));
    assert_eq!(
        handle_slide_translation_shortcut(read),
        vec![HandlerAction::Emit(WindowEvent::PrefillText(" selected ".to_string()))]
    );
}

#[test]
fn blank_selection_emits_nothing() {
    let read = SelectionProgress::Read(ClipboardRead::Text(" \n ".to_string()));
    assert_eq!(handle_slide_translation_shortcut(read), vec![]);
}

#[test]
fn failed_selection_emits_nothing() {
    let unavailable = SelectionProgress::Read(ClipboardRead::Unavailable);
    assert_eq!(handle_slide_translation_shortcut(unavailable), vec![]);
    let unreadable = SelectionProgress::Read(ClipboardRead::Unreadable);
    assert_eq!(handle_slide_translation_shortcut(unreadable), vec![]);
}

#[test]
fn events_carry_their_names() {
    assert_eq!(WindowEvent::OcrPending(true).name(), "ocr-pending");
    assert_eq!(WindowEvent::OcrResult("t".to_string()).name(), "ocr-result");
    assert_eq!(WindowEvent::PrefillText("t".to_string()).name(), "prefill-text");
}

#[test]
fn two_screenshot_presses_emit_two_of_each() {
    let mut performed: Vec<HandlerAction> = Vec::new();
    performed.extend(handle_fullscreen_ocr_shortcut(OcrProgress::Pressed));
    performed.extend(handle_fullscreen_ocr_shortcut(OcrProgress::Pressed));
    performed.extend(handle_fullscreen_ocr_shortcut(OcrProgress::Recognized(
        CaptureResult::Failure("second failed".to_string()),
    )));
    performed.extend(handle_fullscreen_ocr_shortcut(OcrProgress::Recognized(
        CaptureResult::Text("first".to_string()),
    )));
    assert_eq!(count_named(&performed, "ocr-pending"), 2);
    assert_eq!(count_named(&performed, "ocr-result"), 2);
    assert_eq!(count_named(&performed, "prefill-text"), 0);
}

#[test]
fn one_screenshot_press_emits_one_of_each() {
    let mut performed = handle_fullscreen_ocr_shortcut(OcrProgress::Pressed);
    performed.extend(handle_fullscreen_ocr_shortcut(OcrProgress::Recognized(
        CaptureResult::Text("t".to_string()),
    )));
    assert_eq!(count_named(&performed, "ocr-pending"), 1);
    assert_eq!(count_named(&performed, "ocr-result"), 1);
    assert_eq!(performed[0], HandlerAction::ShowMainWindow);
}
