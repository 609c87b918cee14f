//! Decisions behind the user-interface commands: one capture at a time, selection
//! checks, what a settings change requires, and decoding the translated image.
use vstd::prelude::*;
use vstd::string::*;

use crate::capture_window::{encode_png, png_outcome};
use crate::error::{AppError, AppResult, ErrorView, result_view};
use crate::image_codec::{exact_rgba, base64_bytes_of, lemma_base64_standard_injective, base64_decode, base64_decoding, base64_encode, base64_standard, guessed_rgba, read_guessed_rgba};
use crate::models::CaptureRect;
use crate::text::{dec_digits, push_decimal, same_text};

verus! {

// ── One capture at a time ──────────────────────────────────────────────────

/// Whether a capture session is running; a new one is refused while one is.
pub struct CaptureGate {
    in_progress: bool,
}

impl View for CaptureGate {
    type V = bool;

    closed spec fn view(&self) -> bool {
        self.in_progress
    }
}

impl CaptureGate {
    /// No capture running.
    pub fn new() -> (g: Self)
        ensures
            !g@,
    {
        CaptureGate { in_progress: false }
    }

    /// Whether a capture is running.
    pub fn in_progress(&self) -> (r: bool)
        ensures
            r == self@,
    {
        self.in_progress
    }

    /// Starts a capture: refused, with nothing changed, while one is running.
    pub fn begin(&mut self) -> (r: AppResult<()>)
        ensures
            old(self)@ ==> (r matches Err(e) && e@ == ErrorView::Capture(
                "a capture session is already running"@,
            )) && final(self)@,
            !old(self)@ ==> r is Ok && final(self)@,
    {
        if self.in_progress {
            return Err(AppError::Capture("a capture session is already running".to_owned()));
        }
        self.in_progress = true;
        Ok(())
    }

    /// Ends the running capture (finished, cancelled or failed).
    pub fn finish(&mut self)
        ensures
            !final(self)@,
    {
        self.in_progress = false;
    }
}

// ── Selection ──────────────────────────────────────────────────────────────

/// A selection is translated only when it is larger than 4×4 pixels.
pub open spec fn selection_big_enough(r: CaptureRect) -> bool {
    r.width > 4 && r.height > 4
}

/// Refuses a selection of 4 pixels or less in either direction.
pub fn check_capture_selection(selection: &CaptureRect) -> (r: AppResult<()>)
    ensures
        selection_big_enough(*selection) ==> r is Ok,
        !selection_big_enough(*selection) ==> (r matches Err(e) && e@ == ErrorView::Capture(
            "selection too small"@,
        )),
{
    if selection.width <= 4 || selection.height <= 4 {
        return Err(AppError::Capture("selection too small".to_owned()));
    }
    Ok(())
}

/// The monitor name recorded for a translated selection: `capture:x:y:width:height`.
pub open spec fn capture_monitor_id_text(r: CaptureRect) -> Seq<char> {
    "capture:"@ + dec_digits(r.x as nat) + ":"@ + dec_digits(r.y as nat) + ":"@ + dec_digits(
        r.width as nat,
    ) + ":"@ + dec_digits(r.height as nat)
}

/// The monitor name recorded for a translated selection.
pub fn capture_monitor_id(rect: &CaptureRect) -> (s: String)
    ensures
        s@ == capture_monitor_id_text(*rect),
{
    let mut s = "capture:".to_owned();
    push_decimal(&mut s, rect.x as u128);
    s.append(":");
    push_decimal(&mut s, rect.y as u128);
    s.append(":");
    push_decimal(&mut s, rect.width as u128);
    s.append(":");
    push_decimal(&mut s, rect.height as u128);
    assert(s@ =~= capture_monitor_id_text(*rect));
    s
}

// ── Settings ───────────────────────────────────────────────────────────────

/// What saving new settings requires besides storing them.
#[derive(Debug, Clone)]
pub struct SettingsChanges {
    /// Switch launching at login on (`true`) or off (`false`).
    pub autostart: Option<bool>,
    /// The global shortcut to release.
    pub unregister_hotkey: Option<String>,
    /// The global shortcut to register.
    pub register_hotkey: Option<String>,
}

/// Works out what replacing the settings (autostart flag, hotkey) by new ones requires:
/// toggling autostart when it changed; when the hotkey changed, releasing the old one
/// and registering the new one (an empty hotkey is neither released nor registered).
pub fn settings_changes(
    old_autostart: bool,
    new_autostart: bool,
    old_hotkey: &str,
    new_hotkey: &str,
) -> (c: SettingsChanges)
    ensures
        c.autostart == if old_autostart != new_autostart {
            Some(new_autostart)
        } else {
            None
        },
        old_hotkey@ == new_hotkey@ ==> c.unregister_hotkey is None && c.register_hotkey is None,
        old_hotkey@ != new_hotkey@ ==> (c.unregister_hotkey matches Some(h) ==> h@
            == old_hotkey@) && (c.unregister_hotkey is Some <==> old_hotkey@.len() > 0) && (
        c.register_hotkey matches Some(h) ==> h@ == new_hotkey@) && (c.register_hotkey is Some
            <==> new_hotkey@.len() > 0),
{
    let autostart = if old_autostart != new_autostart {
        Some(new_autostart)
    } else {
        None
    };
    if same_text(old_hotkey, new_hotkey) {
        return SettingsChanges { autostart, unregister_hotkey: None, register_hotkey: None };
    }
    let unregister_hotkey = if old_hotkey.is_empty() {
        None
    } else {
        Some(old_hotkey.to_owned())
    };
    let register_hotkey = if new_hotkey.is_empty() {
        None
    } else {
        Some(new_hotkey.to_owned())
    };
    SettingsChanges { autostart, unregister_hotkey, register_hotkey }
}

// ── Images exchanged with the translation service ──────────────────────────

/// What `decode_jpeg_to_rgba` gives for some image bytes.
pub open spec fn rgba_decode_outcome(bytes: Seq<u8>) -> Result<(Seq<u8>, u32, u32), ErrorView> {
    match guessed_rgba(bytes) {
        Err(m) => Err(ErrorView::Capture("image reader: "@ + m)),
        Ok(Err(m)) => Err(ErrorView::Capture("image decode: "@ + m)),
        Ok(Ok(img)) => Ok(img),
    }
}

/// Decodes the translated image (whatever its format) to RGBA pixels with its size.
pub fn decode_jpeg_to_rgba(jpeg_bytes: &[u8]) -> (r: AppResult<(Vec<u8>, u32, u32)>)
    ensures
        match r {
            Ok((p, w, h)) => rgba_decode_outcome(jpeg_bytes@) == Ok::<_, ErrorView>((p@, w, h))
                && exact_rgba(p@, w, h),
            Err(e) => rgba_decode_outcome(jpeg_bytes@) == Err::<(Seq<u8>, u32, u32), _>(e@),
        },
{
    match read_guessed_rgba(jpeg_bytes) {
        Ok(Ok(img)) => Ok(img),
        Ok(Err(m)) => {
            let mut msg = "image decode: ".to_owned();
            msg.append(m.as_str());
            Err(AppError::Capture(msg))
        },
        Err(m) => {
            let mut msg = "image reader: ".to_owned();
            msg.append(m.as_str());
            Err(AppError::Capture(msg))
        },
    }
}

/// Decodes the Base64 text of the translated image.
pub fn decode_image_base64(text: &str) -> (r: AppResult<Vec<u8>>)
    ensures
        match r {
            Ok(b) => base64_decoding(text@) == Ok::<_, Seq<char>>(b@),
            Err(e) => base64_decoding(text@) matches Err(m) && e@ == ErrorView::Parse(
                "base64 decode: "@ + m,
            ),
        },
        r matches Ok(b) ==> base64_bytes_of(text@) == Some(b@),
        r is Err <==> base64_bytes_of(text@) is None,
{
    let r = base64_decode(text);
    proof {
        if r is Ok {
            let b = r->Ok_0@;
            let c = choose|c: Seq<u8>| base64_standard(c) == text@;
            assert(base64_standard(b) == text@);
            lemma_base64_standard_injective(c, b);
        } else if exists|c: Seq<u8>| base64_standard(c) == text@ {
            let c = choose|c: Seq<u8>| base64_standard(c) == text@;
            assert(base64_standard(c) == text@);
        }
    }
    match r {
        Ok(b) => Ok(b),
        Err(m) => {
            let mut msg = "base64 decode: ".to_owned();
            msg.append(m.as_str());
            Err(AppError::Parse(msg))
        },
    }
}

/// The Base64 text of the PNG preview of a captured `w`×`h` RGBA screenshot.
pub fn build_capture_preview_base64(rgba: &[u8], w: u32, h: u32) -> (r: AppResult<String>)
    ensures
        match r {
            Ok(s) => png_outcome(rgba@, w, h) matches Ok(b) && s@ == base64_standard(b),
            Err(e) => png_outcome(rgba@, w, h) == Err::<Seq<u8>, _>(e@),
        },
{
    let png = match encode_png(rgba, w, h) {
        Ok(b) => b,
        Err(e) => return Err(e),
    };
    Ok(base64_encode(&png))
}

} // verus!
