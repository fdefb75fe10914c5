//! What pressing a registered shortcut leads to.
//!
//! The operating system delivers key transitions on its own thread, which
//! must not be held up: [`dispatch`] tells the driver whether to ignore the
//! transition, to run the slot's handler on the spot or to hand it to a task
//! of its own. A handler is a short script: the driver performs the actions
//! it is given, in order, and comes back with what the last of them
//! produced.

use crate::capture::{captured_text, capture_selected_text, ClipboardRead, SETTLE_DELAY_MS};
use crate::hotkeys::Slot;
use vstd::prelude::*;
use vstd::string::*;

verus! {

/// Name of the event that announces that recognition has begun.
pub const OCR_PENDING_EVENT: &'static str = "ocr-pending";

/// Name of the event that carries the outcome of recognition.
pub const OCR_RESULT_EVENT: &'static str = "ocr-result";

/// Name of the event that carries captured text.
pub const PREFILL_EVENT: &'static str = "prefill-text";

/// What a failed recognition is reported with, before its reason.
pub const ERROR_PREFIX: &'static str = "Error: ";

/// A transition of a registered key combination.
#[derive(Clone, Copy, Debug, PartialEq, Eq, Structural)]
pub enum KeyState {
    Pressed,
    Released,
}

/// How the driver is to treat a key transition.
#[derive(Clone, Copy, Debug, PartialEq, Eq, Structural)]
pub enum Dispatch {
    /// Do nothing.
    Ignore,
    /// Run the handler of the slot before returning.
    RunInline(Slot),
    /// Start a task that runs the handler of the slot, and return at once.
    Spawn(Slot),
}

/// The outcome of a capture: the text, or the reason why there is none.
#[derive(Clone, Debug, PartialEq, Eq)]
pub enum CaptureResult {
    Text(String),
    Failure(String),
}

/// An event for the main window.
#[derive(Clone, Debug, PartialEq, Eq)]
pub enum WindowEvent {
    OcrPending(bool),
    OcrResult(String),
    PrefillText(String),
}

/// An event for the main window as plain values.
pub enum Emission {
    OcrPending(bool),
    OcrResult(Seq<char>),
    PrefillText(Seq<char>),
}

impl Emission {
    /// The name under which the event is emitted.
    pub open spec fn name(self) -> Seq<char> {
        match self {
            Emission::OcrPending(_) => OCR_PENDING_EVENT@,
            Emission::OcrResult(_) => OCR_RESULT_EVENT@,
            Emission::PrefillText(_) => PREFILL_EVENT@,
        }
    }
}

impl View for WindowEvent {
    type V = Emission;

    open spec fn view(&self) -> Emission {
        match self {
            WindowEvent::OcrPending(pending) => Emission::OcrPending(*pending),
            WindowEvent::OcrResult(payload) => Emission::OcrResult(payload@),
            WindowEvent::PrefillText(text) => Emission::PrefillText(text@),
        }
    }
}

impl WindowEvent {
    /// The name under which the event is emitted.
    pub fn name(&self) -> (name: &'static str)
        ensures
            name@ == self@.name(),
    {
        match self {
            WindowEvent::OcrPending(_) => OCR_PENDING_EVENT,
            WindowEvent::OcrResult(_) => OCR_RESULT_EVENT,
            WindowEvent::PrefillText(_) => PREFILL_EVENT,
        }
    }
}

/// One thing for the driver to do while it runs a handler.
#[derive(Clone, Debug, PartialEq, Eq)]
pub enum HandlerAction {
    /// Show the main window and give it the focus, if it exists.
    ShowMainWindow,
    /// Emit the event to the main window, if it exists.
    Emit(WindowEvent),
    /// Run recognition on a screenshot and come back with
    /// [`OcrProgress::Recognized`].
    RunOcr,
    /// Inject the copy keystroke.
    InjectCopy,
    /// Wait for the given number of milliseconds.
    Settle { millis: u64 },
    /// Read the clipboard and come back with [`SelectionProgress::Read`].
    ReadClipboard,
}

/// One thing for the driver to do, as plain values.
pub enum HandlerStep {
    ShowMainWindow,
    Emit(Emission),
    RunOcr,
    InjectCopy,
    Settle { millis: u64 },
    ReadClipboard,
}

impl View for HandlerAction {
    type V = HandlerStep;

    open spec fn view(&self) -> HandlerStep {
        match self {
            HandlerAction::ShowMainWindow => HandlerStep::ShowMainWindow,
            HandlerAction::Emit(event) => HandlerStep::Emit(event@),
            HandlerAction::RunOcr => HandlerStep::RunOcr,
            HandlerAction::InjectCopy => HandlerStep::InjectCopy,
            HandlerAction::Settle { millis } => HandlerStep::Settle { millis: *millis },
            HandlerAction::ReadClipboard => HandlerStep::ReadClipboard,
        }
    }
}

/// The steps that a list of actions stands for.
pub open spec fn steps(actions: Seq<HandlerAction>) -> Seq<HandlerStep> {
    actions.map_values(|action: HandlerAction| action@)
}

/// How far the screenshot handler has come.
#[derive(Clone, Debug, PartialEq, Eq)]
pub enum OcrProgress {
    /// The shortcut was pressed.
    Pressed,
    /// Recognition ended with the given outcome.
    Recognized(CaptureResult),
}

/// How far the selection handler has come.
#[derive(Clone, Debug, PartialEq, Eq)]
pub enum SelectionProgress {
    /// The shortcut was pressed.
    Pressed,
    /// The clipboard was read with the given outcome.
    Read(ClipboardRead),
}

/// The treatment of a key transition: releases are ignored; a press of the
/// popup shortcut is handled on the spot, a press of either capture shortcut
/// in a task of its own.
pub open spec fn dispatched(slot: Slot, state: KeyState) -> Dispatch {
    match state {
        KeyState::Released => Dispatch::Ignore,
        KeyState::Pressed => match slot {
            Slot::PopupWindow => Dispatch::RunInline(slot),
            Slot::ScreenshotTranslation => Dispatch::Spawn(slot),
            Slot::SlideTranslation => Dispatch::Spawn(slot),
        },
    }
}

/// The payload of the result event: the recognized text, or the reason of
/// the failure behind the error prefix.
pub open spec fn ocr_payload(result: CaptureResult) -> Seq<char> {
    match result {
        CaptureResult::Text(text) => text@,
        CaptureResult::Failure(reason) => ERROR_PREFIX@ + reason@,
    }
}

/// The steps of the popup handler.
pub open spec fn popup_window_steps() -> Seq<HandlerStep> {
    seq![HandlerStep::ShowMainWindow]
}

/// The steps of the screenshot handler at each point of its progress.
pub open spec fn fullscreen_ocr_steps(progress: OcrProgress) -> Seq<HandlerStep> {
    match progress {
        OcrProgress::Pressed => seq![
            HandlerStep::ShowMainWindow,
            HandlerStep::Emit(Emission::OcrPending(true)),
            HandlerStep::RunOcr,
        ],
        OcrProgress::Recognized(result) => seq![
            HandlerStep::Emit(Emission::OcrResult(ocr_payload(result))),
        ],
    }
}

/// The steps of the selection handler at each point of its progress.
pub open spec fn slide_translation_steps(progress: SelectionProgress) -> Seq<HandlerStep> {
    match progress {
        SelectionProgress::Pressed => seq![
            HandlerStep::ShowMainWindow,
            HandlerStep::InjectCopy,
            HandlerStep::Settle { millis: SETTLE_DELAY_MS },
            HandlerStep::ReadClipboard,
        ],
        SelectionProgress::Read(read) => match captured_text(read) {
            Some(text) => seq![HandlerStep::Emit(Emission::PrefillText(text@))],
            None => Seq::empty(),
        },
    }
}

/// Decides how a transition of the shortcut of `slot` is treated.
pub fn dispatch(slot: Slot, state: KeyState) -> (treatment: Dispatch)
    ensures
        treatment == dispatched(slot, state),
{
    match state {
        KeyState::Released => Dispatch::Ignore,
        KeyState::Pressed => match slot {
            Slot::PopupWindow => Dispatch::RunInline(slot),
            Slot::ScreenshotTranslation => Dispatch::Spawn(slot),
            Slot::SlideTranslation => Dispatch::Spawn(slot),
        },
    }
}

/// Builds the payload of the result event from the outcome of recognition.
pub fn ocr_result_payload(result: CaptureResult) -> (payload: String)
    ensures
        payload@ == ocr_payload(result),
{
    match result {
        CaptureResult::Text(text) => text,
        CaptureResult::Failure(reason) => {
            let mut payload = ERROR_PREFIX.to_owned();
            payload.append(reason.as_str());
            payload
        },
    }
}

/// The popup handler: show the main window.
pub fn handle_popup_window_shortcut() -> (actions: Vec<HandlerAction>)
    ensures
        steps(actions@) == popup_window_steps(),
        actions@.len() == popup_window_steps().len(),
{
    let mut actions: Vec<HandlerAction> = Vec::new();
    actions.push(HandlerAction::ShowMainWindow);
    assert(steps(actions@) =~= popup_window_steps());
    actions
}

/// The screenshot handler. On the press: show the main window, announce that
/// recognition is pending, run it. On its outcome: emit the one result
/// event.
pub fn handle_fullscreen_ocr_shortcut(progress: OcrProgress) -> (actions: Vec<HandlerAction>)
    ensures
        steps(actions@) == fullscreen_ocr_steps(progress),
        actions@.len() == fullscreen_ocr_steps(progress).len(),
{
    let mut actions: Vec<HandlerAction> = Vec::new();
    match progress {
        OcrProgress::Pressed => {
            actions.push(HandlerAction::ShowMainWindow);
            actions.push(HandlerAction::Emit(WindowEvent::OcrPending(true)));
            actions.push(HandlerAction::RunOcr);
        },
        OcrProgress::Recognized(result) => {
            actions.push(HandlerAction::Emit(WindowEvent::OcrResult(ocr_result_payload(result))));
        },
    }
    assert(steps(actions@) =~= fullscreen_ocr_steps(progress));
    actions
}

/// The selection handler. On the press: show the main window, inject the
/// copy keystroke, let the clipboard settle, read it. On the read: emit the
/// captured text if there is any, and nothing otherwise.
pub fn handle_slide_translation_shortcut(progress: SelectionProgress) -> (actions: Vec<
    HandlerAction,
>)
    ensures
        steps(actions@) == slide_translation_steps(progress),
        actions@.len() == slide_translation_steps(progress).len(),
{
    let mut actions: Vec<HandlerAction> = Vec::new();
    match progress {
        SelectionProgress::Pressed => {
            actions.push(HandlerAction::ShowMainWindow);
            actions.push(HandlerAction::InjectCopy);
            actions.push(HandlerAction::Settle { millis: SETTLE_DELAY_MS });
            actions.push(HandlerAction::ReadClipboard);
        },
        SelectionProgress::Read(read) => {
            if let Some(text) = capture_selected_text(read) {
                actions.push(HandlerAction::Emit(WindowEvent::PrefillText(text)));
            }
        },
    }
    assert(steps(actions@) =~= slide_translation_steps(progress));
    actions
}

/// Whether the step announces that recognition is pending.
pub open spec fn is_pending(step: HandlerStep) -> bool {
    step matches HandlerStep::Emit(Emission::OcrPending(_))
}

/// Whether the step emits the outcome of recognition.
pub open spec fn is_result(step: HandlerStep) -> bool {
    step matches HandlerStep::Emit(Emission::OcrResult(_))
}

/// Everything that one press of the screenshot shortcut makes the driver do
/// when recognition ends with `result`.
pub open spec fn fullscreen_ocr_run(result: CaptureResult) -> Seq<HandlerStep> {
    fullscreen_ocr_steps(OcrProgress::Pressed) + fullscreen_ocr_steps(
        OcrProgress::Recognized(result),
    )
}

/// Everything that one press of the selection shortcut makes the driver do
/// when the clipboard read ends with `read`.
pub open spec fn slide_translation_run(read: ClipboardRead) -> Seq<HandlerStep> {
    slide_translation_steps(SelectionProgress::Pressed) + slide_translation_steps(
        SelectionProgress::Read(read),
    )
}

/// One press of the screenshot shortcut shows the window first, announces
/// once that recognition is pending, before recognition runs, and emits
/// exactly one result after it: the text or the error, never both and never
/// neither.
pub proof fn lemma_press_emits_pending_then_one_result(result: CaptureResult)
    ensures
        fullscreen_ocr_run(result) == seq![
            HandlerStep::ShowMainWindow,
            HandlerStep::Emit(Emission::OcrPending(true)),
            HandlerStep::RunOcr,
            HandlerStep::Emit(Emission::OcrResult(ocr_payload(result))),
        ],
        fullscreen_ocr_run(result).filter(|step: HandlerStep| is_pending(step)) == seq![
            HandlerStep::Emit(Emission::OcrPending(true)),
        ],
        fullscreen_ocr_run(result).filter(|step: HandlerStep| is_result(step)) == seq![
            HandlerStep::Emit(Emission::OcrResult(ocr_payload(result))),
        ],
{
    let show = HandlerStep::ShowMainWindow;
    let pending = HandlerStep::Emit(Emission::OcrPending(true));
    let run_ocr = HandlerStep::RunOcr;
    let outcome = HandlerStep::Emit(Emission::OcrResult(ocr_payload(result)));
    let run = fullscreen_ocr_run(result);
    let none = Seq::<HandlerStep>::empty();
    assert(run =~= seq![show, pending, run_ocr, outcome]);
    assert(run =~= seq![show] + (seq![pending] + (seq![run_ocr] + (seq![outcome] + none))));
    let announces = |step: HandlerStep| is_pending(step);
    let reports = |step: HandlerStep| is_result(step);
    none.lemma_filter_prepend(outcome, announces);
    (seq![outcome] + none).lemma_filter_prepend(run_ocr, announces);
    (seq![run_ocr] + (seq![outcome] + none)).lemma_filter_prepend(pending, announces);
    (seq![pending] + (seq![run_ocr] + (seq![outcome] + none))).lemma_filter_prepend(
        show,
        announces,
    );
    assert(none.filter(announces) =~= none);
    assert(run.filter(announces) =~= seq![pending]);
    none.lemma_filter_prepend(outcome, reports);
    (seq![outcome] + none).lemma_filter_prepend(run_ocr, reports);
    (seq![run_ocr] + (seq![outcome] + none)).lemma_filter_prepend(pending, reports);
    (seq![pending] + (seq![run_ocr] + (seq![outcome] + none))).lemma_filter_prepend(show, reports);
    assert(none.filter(reports) =~= none);
    assert(run.filter(reports) =~= seq![outcome]);
}

/// Whether `merged` holds the steps of `one` and of `other`, each in its own
/// order, woven together in any way: what a driver performs when it runs two
/// handlers at the same time.
pub open spec fn interleaves(
    merged: Seq<HandlerStep>,
    one: Seq<HandlerStep>,
    other: Seq<HandlerStep>,
) -> bool
    decreases merged.len(),
{
    if merged.len() == 0 {
        one.len() == 0 && other.len() == 0
    } else {
        ||| one.len() > 0 && merged.first() == one.first() && interleaves(
            merged.drop_first(),
            one.drop_first(),
            other,
        )
        ||| other.len() > 0 && merged.first() == other.first() && interleaves(
            merged.drop_first(),
            one,
            other.drop_first(),
        )
    }
}

/// Weaving two runs together neither adds nor drops a step of any kind.
proof fn lemma_interleaving_keeps_counts(
    merged: Seq<HandlerStep>,
    one: Seq<HandlerStep>,
    other: Seq<HandlerStep>,
    kind: spec_fn(HandlerStep) -> bool,
)
    requires
        interleaves(merged, one, other),
    ensures
        merged.filter(kind).len() == one.filter(kind).len() + other.filter(kind).len(),
    decreases merged.len(),
{
    if merged.len() == 0 {
        assert(merged.filter(kind).len() == 0) by {
            merged.lemma_filter_len(kind);
        }
        assert(one.filter(kind).len() == 0) by {
            one.lemma_filter_len(kind);
        }
        assert(other.filter(kind).len() == 0) by {
            other.lemma_filter_len(kind);
        }
    } else {
        let head = merged.first();
        let tail = merged.drop_first();
        assert(merged =~= seq![head] + tail);
        tail.lemma_filter_prepend(head, kind);
        if one.len() > 0 && head == one.first() && interleaves(tail, one.drop_first(), other) {
            lemma_interleaving_keeps_counts(tail, one.drop_first(), other, kind);
            assert(one =~= seq![head] + one.drop_first());
            one.drop_first().lemma_filter_prepend(head, kind);
        } else {
            lemma_interleaving_keeps_counts(tail, one, other.drop_first(), kind);
            assert(other =~= seq![head] + other.drop_first());
            other.drop_first().lemma_filter_prepend(head, kind);
        }
    }
}

/// Two presses of the screenshot shortcut announce twice that recognition is
/// pending and emit two results, however the steps of the two handlers are
/// woven together: none is fused with another and none is dropped.
pub proof fn lemma_two_presses_emit_two_of_each(
    first: CaptureResult,
    second: CaptureResult,
    merged: Seq<HandlerStep>,
)
    requires
        interleaves(merged, fullscreen_ocr_run(first), fullscreen_ocr_run(second)),
    ensures
        merged.filter(|step: HandlerStep| is_pending(step)).len() == 2,
        merged.filter(|step: HandlerStep| is_result(step)).len() == 2,
{
    let announces = |step: HandlerStep| is_pending(step);
    let reports = |step: HandlerStep| is_result(step);
    let one = fullscreen_ocr_run(first);
    let other = fullscreen_ocr_run(second);
    lemma_press_emits_pending_then_one_result(first);
    lemma_press_emits_pending_then_one_result(second);
    lemma_interleaving_keeps_counts(merged, one, other, announces);
    lemma_interleaving_keeps_counts(merged, one, other, reports);
}

/// Run one after the other, two presses of the screenshot shortcut emit
/// their announcements and their results in the order of the presses.
pub proof fn lemma_two_presses_in_a_row(first: CaptureResult, second: CaptureResult)
    ensures
        (fullscreen_ocr_run(first) + fullscreen_ocr_run(second)).filter(
            |step: HandlerStep| is_pending(step),
        ) == seq![
            HandlerStep::Emit(Emission::OcrPending(true)),
            HandlerStep::Emit(Emission::OcrPending(true)),
        ],
        (fullscreen_ocr_run(first) + fullscreen_ocr_run(second)).filter(
            |step: HandlerStep| is_result(step),
        ) == seq![
            HandlerStep::Emit(Emission::OcrResult(ocr_payload(first))),
            HandlerStep::Emit(Emission::OcrResult(ocr_payload(second))),
        ],
{
    let announces = |step: HandlerStep| is_pending(step);
    let reports = |step: HandlerStep| is_result(step);
    let one = fullscreen_ocr_run(first);
    let other = fullscreen_ocr_run(second);
    let pending = HandlerStep::Emit(Emission::OcrPending(true));
    assert((one + other).filter(announces) == seq![pending, pending]) by {
        lemma_press_emits_pending_then_one_result(first);
        lemma_press_emits_pending_then_one_result(second);
        Seq::filter_distributes_over_add(one, other, announces);
        lemma_two_singles(pending, pending);
    }
    assert((one + other).filter(reports) == seq![
        HandlerStep::Emit(Emission::OcrResult(ocr_payload(first))),
        HandlerStep::Emit(Emission::OcrResult(ocr_payload(second))),
    ]) by {
        lemma_press_emits_pending_then_one_result(first);
        lemma_press_emits_pending_then_one_result(second);
        Seq::filter_distributes_over_add(one, other, reports);
        lemma_two_singles(
            HandlerStep::Emit(Emission::OcrResult(ocr_payload(first))),
            HandlerStep::Emit(Emission::OcrResult(ocr_payload(second))),
        );
    }
}

proof fn lemma_two_singles(first: HandlerStep, second: HandlerStep)
    ensures
        seq![first] + seq![second] == seq![first, second],
{
    assert(seq![first] + seq![second] =~= seq![first, second]);
}

/// One press of the selection shortcut shows the window first and emits the
/// captured text exactly if the clipboard held text that is not blank; a
/// failed read, an empty clipboard or one of whitespace alone emits nothing.
pub proof fn lemma_selection_emits_only_valid_text(read: ClipboardRead)
    ensures
        slide_translation_run(read)[0] == HandlerStep::ShowMainWindow,
        slide_translation_run(read).len() == if captured_text(read) is Some {
            5nat
        } else {
            4nat
        },
        captured_text(read) matches Some(text) ==> slide_translation_run(read)[4]
            == HandlerStep::Emit(Emission::PrefillText(text@)),
        forall|i: int|
            0 <= i < 4 ==> !((#[trigger] slide_translation_run(read)[i]) is Emit),
{
}

} // verus!
