//! The native capture workflow: once the user has selected a region, its pixels are
//! cropped and encoded, sent for translation, and the translated image is decoded and
//! laid over the selection.  Each step decides what to do next from what the
//! previous one returned; the caller performs the actions (encoding off the event
//! thread, the network request, decoding, talking to the window) and feeds the
//! outcome back.
use vstd::prelude::*;
use vstd::string::*;

use crate::capture_window::crop_rgba;
use crate::capture_window::{crop_rows, law_crop_matches_image_crop};
use crate::commands::decode_image_base64;
use crate::error::{AppResult, ErrorView};
use crate::image_codec::{law_crop_pixels_are_region, base64_bytes_of, base64_standard, lemma_base64_standard_injective};
use crate::models::CaptureRect;

verus! {

/// Where the workflow stands.
#[derive(Debug, Clone, Copy, PartialEq, Eq, Structural)]
pub enum WorkflowPhase {
    /// Waiting for the user to select a region (or cancel).
    Waiting,
    /// The selected region's pixels are being encoded as PNG.
    Encoding(CaptureRect),
    /// The encoded region is being translated.
    Translating(CaptureRect),
    /// The translated image is being decoded.
    Decoding(CaptureRect),
    /// The capture was cancelled; nothing more happens.
    Finished,
}

/// What happened since the last step.
#[derive(Debug)]
pub enum WorkflowInput {
    /// The user selected a region.
    Selected(CaptureRect),
    /// The user cancelled the capture, or the window went away.
    Cancelled,
    /// Encoding the region as PNG finished.
    Encoded(AppResult<Vec<u8>>),
    /// The translation service answered with a Base64 image (possibly empty).
    Translated(AppResult<String>),
    /// Decoding the translated image finished: RGBA pixels, width, height.
    Decoded(AppResult<(Vec<u8>, u32, u32)>),
}

/// The mathematical view of a [`WorkflowInput`].
pub enum InputView {
    Selected(CaptureRect),
    Cancelled,
    Encoded(Result<Seq<u8>, ErrorView>),
    Translated(Result<Seq<char>, ErrorView>),
    Decoded(Result<(Seq<u8>, u32, u32), ErrorView>),
}

impl View for WorkflowInput {
    type V = InputView;

    open spec fn view(&self) -> InputView {
        match self {
            WorkflowInput::Selected(r) => InputView::Selected(*r),
            WorkflowInput::Cancelled => InputView::Cancelled,
            WorkflowInput::Encoded(r) => InputView::Encoded(
                match r {
                    Ok(b) => Ok(b@),
                    Err(e) => Err(e@),
                },
            ),
            WorkflowInput::Translated(r) => InputView::Translated(
                match r {
                    Ok(s) => Ok(s@),
                    Err(e) => Err(e@),
                },
            ),
            WorkflowInput::Decoded(r) => InputView::Decoded(
                match r {
                    Ok((p, w, h)) => Ok((p@, *w, *h)),
                    Err(e) => Err(e@),
                },
            ),
        }
    }
}

/// What the caller is asked to do.
#[derive(Debug)]
pub enum WorkflowAction {
    /// Tell the main window how the workflow stands.
    EmitState { message: String, kind: String, busy: bool },
    /// Show the spinner over the selection.
    ShowLoading,
    /// Encode these `w`×`h` RGBA pixels as PNG and answer with `Encoded`.
    EncodePng { rgba: Vec<u8>, w: u32, h: u32 },
    /// Translate this PNG of the region `rect` and answer with `Translated`.
    TranslatePng { png: Vec<u8>, rect: CaptureRect },
    /// Decode these image bytes to RGBA and answer with `Decoded`.
    DecodeImage { bytes: Vec<u8> },
    /// Lay this `w`×`h` RGBA image over the screenshot with its corner at `(x, y)`.
    ShowResult { rgba: Vec<u8>, x: u32, y: u32, w: u32, h: u32 },
    /// Drop the capture session and stop listening to the window.
    Finish,
}

/// The mathematical view of a [`WorkflowAction`].
pub enum ActionView {
    EmitState { message: Seq<char>, kind: Seq<char>, busy: bool },
    ShowLoading,
    EncodePng { rgba: Seq<u8>, w: u32, h: u32 },
    TranslatePng { png: Seq<u8>, rect: CaptureRect },
    DecodeImage { bytes: Seq<u8> },
    ShowResult { rgba: Seq<u8>, x: u32, y: u32, w: u32, h: u32 },
    Finish,
}

impl View for WorkflowAction {
    type V = ActionView;

    open spec fn view(&self) -> ActionView {
        match self {
            WorkflowAction::EmitState { message, kind, busy } => ActionView::EmitState {
                message: message@,
                kind: kind@,
                busy: *busy,
            },
            WorkflowAction::ShowLoading => ActionView::ShowLoading,
            WorkflowAction::EncodePng { rgba, w, h } => ActionView::EncodePng {
                rgba: rgba@,
                w: *w,
                h: *h,
            },
            WorkflowAction::TranslatePng { png, rect } => ActionView::TranslatePng {
                png: png@,
                rect: *rect,
            },
            WorkflowAction::DecodeImage { bytes } => ActionView::DecodeImage { bytes: bytes@ },
            WorkflowAction::ShowResult { rgba, x, y, w, h } => ActionView::ShowResult {
                rgba: rgba@,
                x: *x,
                y: *y,
                w: *w,
                h: *h,
            },
            WorkflowAction::Finish => ActionView::Finish,
        }
    }
}

/// The views of a list of actions.
pub open spec fn actions_view(v: Seq<WorkflowAction>) -> Seq<ActionView> {
    Seq::new(v.len(), |i: int| v[i]@)
}

/// A state message for the main window.
pub open spec fn emit(message: Seq<char>, kind: Seq<char>, busy: bool) -> ActionView {
    ActionView::EmitState { message, kind, busy }
}

/// The message shown while a region is being translated.
pub open spec fn translating_text() -> Seq<char> {
    "正在翻译…"@
}

/// The message shown when the region could not be encoded.
pub open spec fn encode_failed_text() -> Seq<char> {
    "截图编码失败"@
}

/// The message shown when the translation finished.
pub open spec fn translated_text() -> Seq<char> {
    "翻译完成"@
}

/// The message shown when the translation failed.
pub open spec fn translation_failed_text() -> Seq<char> {
    "翻译失败"@
}

/// One step of the workflow over a screenshot `rgba` that is `img_w` pixels wide: the
/// next phase and the actions to perform, in order.
///
/// - A selection while waiting announces the translation, shows the spinner and asks to
///   encode the selected region's pixels.
/// - An encoded region is sent for translation; a failed encoding is reported and the
///   workflow waits for the next selection.
/// - A non-empty translated image that is valid Base64 is decoded; a failed
///   translation is reported; otherwise the translation is reported finished.
/// - A decoded image is shown with its corner at the selection's corner, and the
///   translation is reported finished (also when decoding failed).
/// - Cancelling while waiting drops the session and clears the main window's state.
/// - Anything else changes nothing.
pub open spec fn workflow_step(phase: WorkflowPhase, input: InputView, rgba: Seq<u8>, img_w: u32) -> (
    WorkflowPhase,
    Seq<ActionView>,
) {
    match (phase, input) {
        (WorkflowPhase::Waiting, InputView::Selected(r)) => (
            WorkflowPhase::Encoding(r),
            seq![
                emit(translating_text(), ""@, true),
                ActionView::ShowLoading,
                ActionView::EncodePng {
                    rgba: crop_rows(
                        rgba,
                        img_w as int,
                        r.x as int,
                        r.y as int,
                        r.width as int,
                        r.height as int,
                    ),
                    w: r.width,
                    h: r.height,
                },
            ],
        ),
        (WorkflowPhase::Waiting, InputView::Cancelled) => (
            WorkflowPhase::Finished,
            seq![ActionView::Finish, emit(""@, ""@, false)],
        ),
        (WorkflowPhase::Encoding(r), InputView::Encoded(res)) => match res {
            Ok(png) => (WorkflowPhase::Translating(r), seq![ActionView::TranslatePng { png, rect: r }]),
            Err(_) => (WorkflowPhase::Waiting, seq![emit(encode_failed_text(), "error"@, false)]),
        },
        (WorkflowPhase::Translating(r), InputView::Translated(res)) => match res {
            Err(_) => (WorkflowPhase::Waiting, seq![emit(translation_failed_text(), "error"@, false)]),
            Ok(text) => if text.len() > 0 && base64_bytes_of(text) is Some {
                (
                    WorkflowPhase::Decoding(r),
                    seq![ActionView::DecodeImage { bytes: base64_bytes_of(text)->Some_0 }],
                )
            } else {
                (WorkflowPhase::Waiting, seq![emit(translated_text(), "ok"@, false)])
            },
        },
        (WorkflowPhase::Decoding(r), InputView::Decoded(res)) => match res {
            Ok((pixels, w, h)) => (
                WorkflowPhase::Waiting,
                seq![
                    ActionView::ShowResult { rgba: pixels, x: r.x, y: r.y, w, h },
                    emit(translated_text(), "ok"@, false),
                ],
            ),
            Err(_) => (WorkflowPhase::Waiting, seq![emit(translated_text(), "ok"@, false)]),
        },
        _ => (phase, seq![]),
    }
}

fn emit_state(message: &str, kind: &str, busy: bool) -> (a: WorkflowAction)
    ensures
        a@ == emit(message@, kind@, busy),
{
    WorkflowAction::EmitState { message: message.to_owned(), kind: kind.to_owned(), busy }
}

/// The capture workflow over one screenshot.
pub struct CaptureWorkflow {
    /// The screenshot's RGBA pixels.
    pub rgba: Vec<u8>,
    /// The screenshot's width in pixels.
    pub img_w: u32,
    /// Where the workflow stands.
    pub phase: WorkflowPhase,
}

impl CaptureWorkflow {
    /// A workflow over a screenshot, waiting for a selection.
    pub fn new(rgba: Vec<u8>, img_w: u32) -> (w: Self)
        ensures
            w.rgba@ == rgba@,
            w.img_w == img_w,
            w.phase == WorkflowPhase::Waiting,
    {
        CaptureWorkflow { rgba, img_w, phase: WorkflowPhase::Waiting }
    }

    /// Whether the workflow was cancelled.
    pub fn is_finished(&self) -> (r: bool)
        ensures
            r == (self.phase == WorkflowPhase::Finished),
    {
        match self.phase {
            WorkflowPhase::Finished => true,
            _ => false,
        }
    }

    /// Takes one step: moves to the next phase and returns the actions to perform.
    pub fn step(&mut self, input: WorkflowInput) -> (actions: Vec<WorkflowAction>)
        ensures
            (final(self).phase, actions_view(actions@)) == workflow_step(
                old(self).phase,
                input@,
                old(self).rgba@,
                old(self).img_w,
            ),
            final(self).rgba@ == old(self).rgba@,
            final(self).img_w == old(self).img_w,
    {
        let ghost input_view = input@;
        let mut actions: Vec<WorkflowAction> = Vec::new();
        match (self.phase, input) {
            (WorkflowPhase::Waiting, WorkflowInput::Selected(r)) => {
                let crop = crop_rgba(self.rgba.as_slice(), self.img_w, r.x, r.y, r.width, r.height);
                actions.push(emit_state("正在翻译…", "", true));
                actions.push(WorkflowAction::ShowLoading);
                actions.push(WorkflowAction::EncodePng { rgba: crop, w: r.width, h: r.height });
                self.phase = WorkflowPhase::Encoding(r);
            },
            (WorkflowPhase::Waiting, WorkflowInput::Cancelled) => {
                actions.push(WorkflowAction::Finish);
                actions.push(emit_state("", "", false));
                self.phase = WorkflowPhase::Finished;
            },
            (WorkflowPhase::Encoding(r), WorkflowInput::Encoded(res)) => match res {
                Ok(png) => {
                    actions.push(WorkflowAction::TranslatePng { png, rect: r });
                    self.phase = WorkflowPhase::Translating(r);
                },
                Err(_) => {
                    actions.push(emit_state("截图编码失败", "error", false));
                    self.phase = WorkflowPhase::Waiting;
                },
            },
            (WorkflowPhase::Translating(r), WorkflowInput::Translated(res)) => match res {
                Err(_) => {
                    actions.push(emit_state("翻译失败", "error", false));
                    self.phase = WorkflowPhase::Waiting;
                },
                Ok(text) => {
                    let decoded = if text.as_str().is_empty() {
                        None
                    } else {
                        match decode_image_base64(text.as_str()) {
                            Ok(bytes) => Some(bytes),
                            Err(_) => None,
                        }
                    };
                    match decoded {
                        Some(bytes) => {
                            actions.push(WorkflowAction::DecodeImage { bytes });
                            self.phase = WorkflowPhase::Decoding(r);
                        },
                        None => {
                            actions.push(emit_state("翻译完成", "ok", false));
                            self.phase = WorkflowPhase::Waiting;
                        },
                    }
                },
            },
            (WorkflowPhase::Decoding(r), WorkflowInput::Decoded(res)) => match res {
                Ok((pixels, w, h)) => {
                    actions.push(WorkflowAction::ShowResult { rgba: pixels, x: r.x, y: r.y, w, h });
                    actions.push(emit_state("翻译完成", "ok", false));
                    self.phase = WorkflowPhase::Waiting;
                },
                Err(_) => {
                    actions.push(emit_state("翻译完成", "ok", false));
                    self.phase = WorkflowPhase::Waiting;
                },
            },
            _ => {},
        }
        assert(actions_view(actions@) =~= workflow_step(
            old(self).phase,
            input_view,
            old(self).rgba@,
            old(self).img_w,
        ).1);
        actions
    }
}

/// The translated image of a selection is laid over the screenshot exactly where the
/// selection was: selecting `r`, encoding it, receiving the Base64 text of image bytes
/// `image`, and decoding those to pixels ends with those pixels shown at `r`'s corner.
pub proof fn law_result_shown_at_selection(
    rgba: Seq<u8>,
    img_w: u32,
    r: CaptureRect,
    png: Seq<u8>,
    image: Seq<u8>,
    pixels: Seq<u8>,
    w: u32,
    h: u32,
)
    requires
        image.len() > 0,
    ensures
        ({
            let s1 = workflow_step(WorkflowPhase::Waiting, InputView::Selected(r), rgba, img_w);
            let s2 = workflow_step(s1.0, InputView::Encoded(Ok(png)), rgba, img_w);
            let s3 = workflow_step(
                s2.0,
                InputView::Translated(Ok(base64_standard(image))),
                rgba,
                img_w,
            );
            let s4 = workflow_step(s3.0, InputView::Decoded(Ok((pixels, w, h))), rgba, img_w);
            &&& s2.1 == seq![ActionView::TranslatePng { png, rect: r }]
            &&& s3.1 == seq![ActionView::DecodeImage { bytes: image }]
            &&& s4.0 == WorkflowPhase::Waiting
            &&& s4.1[0] == ActionView::ShowResult { rgba: pixels, x: r.x, y: r.y, w, h }
        }),
{
    let text = base64_standard(image);
    assert(image.len() >= 3 ==> text.len() >= 4);
    assert(text.len() > 0);
    assert(base64_standard(image) == text);
    let c = choose|c: Seq<u8>| base64_standard(c) == text;
    lemma_base64_standard_injective(c, image);
}

/// A selection made while waiting is encoded as an image of the selection's own size,
/// and, when it lies inside the screenshot, its pixels are the selected region's:
/// `width * height` pixels, pixel `(i, j)` being the screenshot's pixel `(x + i, y + j)`.
pub proof fn law_selection_encoded_at_its_size(rgba: Seq<u8>, img_w: u32, r: CaptureRect)
    ensures
        ({
            let s = workflow_step(WorkflowPhase::Waiting, InputView::Selected(r), rgba, img_w);
            &&& s.0 == WorkflowPhase::Encoding(r)
            &&& s.1.len() == 3
            &&& s.1[2] matches ActionView::EncodePng { rgba: crop, w, h }
            &&& w == r.width
            &&& h == r.height
            &&& (r.x + r.width <= img_w && (r.y + r.height) * img_w * 4 <= rgba.len()) ==> {
                &&& crop.len() == r.width * r.height * 4
                &&& forall|i: int, j: int, k: int|
                    0 <= i < r.width && 0 <= j < r.height && 0 <= k < 4 ==> #[trigger] crop[(j
                        * r.width + i) * 4 + k] == rgba[((r.y + j) * img_w + r.x + i) * 4 + k]
            }
        }),
{
    let s = workflow_step(WorkflowPhase::Waiting, InputView::Selected(r), rgba, img_w);
    if r.x + r.width <= img_w && (r.y + r.height) * img_w * 4 <= rgba.len() {
        law_crop_matches_image_crop(
            rgba,
            img_w as nat,
            r.x as nat,
            r.y as nat,
            r.width as nat,
            r.height as nat,
        );
        let crop = crop_rows(
            rgba,
            img_w as int,
            r.x as int,
            r.y as int,
            r.width as int,
            r.height as int,
        );
        assert forall|i: int, j: int, k: int|
            0 <= i < r.width && 0 <= j < r.height && 0 <= k < 4 implies #[trigger] crop[(j
                * r.width + i) * 4 + k] == rgba[((r.y + j) * img_w + r.x + i) * 4 + k] by {
            law_crop_pixels_are_region(
                rgba,
                img_w as nat,
                r.x as nat,
                r.y as nat,
                r.width as nat,
                r.height as nat,
                i,
                j,
                k,
            );
        }
        assert(0 <= (r.width as int) * (r.height as int) * 4) by (nonlinear_arith);
    }
}

/// Every failure along the way is reported with its own message and the workflow goes
/// back to waiting for a selection; cancelling while waiting finishes it.
pub proof fn law_failures_report_and_wait(
    rgba: Seq<u8>,
    img_w: u32,
    r: CaptureRect,
    e: ErrorView,
)
    ensures
        workflow_step(WorkflowPhase::Encoding(r), InputView::Encoded(Err(e)), rgba, img_w) == (
            WorkflowPhase::Waiting,
            seq![emit(encode_failed_text(), "error"@, false)],
        ),
        workflow_step(WorkflowPhase::Translating(r), InputView::Translated(Err(e)), rgba, img_w)
            == (WorkflowPhase::Waiting, seq![emit(translation_failed_text(), "error"@, false)]),
        workflow_step(WorkflowPhase::Decoding(r), InputView::Decoded(Err(e)), rgba, img_w) == (
            WorkflowPhase::Waiting,
            seq![emit(translated_text(), "ok"@, false)],
        ),
        workflow_step(WorkflowPhase::Waiting, InputView::Cancelled, rgba, img_w) == (
            WorkflowPhase::Finished,
            seq![ActionView::Finish, emit(""@, ""@, false)],
        ),
{
}

} // verus!
