//! Screen-capture decisions: Wayland/Hyprland session handling, `slurp` geometry
//! parsing, helper-program failure messages, and turning captured image bytes into
//! the library's capture records.
use vstd::prelude::*;
use vstd::string::*;

use crate::error::{AppError, AppResult, ErrorView, result_view};
use crate::int_parse::{
    IntParseError, digits_from, int_error_message, int_error_text, is_digit,
    lemma_dec_digits_value, lemma_parse_int_text_of, parse_i32_chars, parse_i32_text,
    parse_u32_chars, parse_u32_text,
};
use crate::image_codec::{
    crop_image, crop_pixels, law_crop_pixels_are_region, decoded_png_rgba, decoded_rgba, exact_rgba, guessed_rgba, holds_rgba,
    load_png_rgba, load_rgba, png_encode, png_encoding, read_guessed_rgba,
};
use crate::text::{
    ascii_lower, ascii_lowercase_chars, chars_of, contains_chars, contains_text, dec_digits,
    int_text, lemma_split_at_first, lossy_text, push_decimal, push_signed_decimal, same_text, split_once_at,
    split_once_chars, trim_text, trimmed, utf8_error_text, utf8_lossy, utf8_string,
};
use vstd::utf8::{decode_utf8, valid_utf8};

verus! {

/// Where the debugging artefacts of a capture are written.
pub const DEBUG_CAPTURE_DIR: &'static str = "/tmp/glance-debug/latest";

/// A region captured on a Wayland session with `slurp` and `grim`.
pub struct LinuxWaylandCapture {
    pub png_bytes: Vec<u8>,
    pub rgba_bytes: Vec<u8>,
    pub width: u32,
    pub height: u32,
    pub rect_x: i32,
    pub rect_y: i32,
}

/// A region the user picked with the interactive system screenshot tool.
pub struct InteractiveCaptureImage {
    pub png_bytes: Vec<u8>,
    pub rgba_bytes: Vec<u8>,
    pub width: u32,
    pub height: u32,
}

/// A whole-display screenshot together with the encoded preview it came from.
pub struct CapturedScreenImage {
    pub preview_bytes: Vec<u8>,
    pub preview_mime: &'static str,
    pub rgba_bytes: Vec<u8>,
    pub width: u32,
    pub height: u32,
}

/// One entry of `hyprctl -j instances`.
#[derive(Debug, Clone)]
pub struct HyprlandInstanceRecord {
    pub instance: String,
    pub wl_socket: String,
}

/// Environment overrides under which the Wayland capture helpers are launched.
#[derive(Debug, Clone)]
pub struct WaylandLaunchEnv {
    pub wayland_display: String,
    pub hyprland_instance_signature: Option<String>,
    /// `XDG_RUNTIME_DIR` as raw bytes, when it was set.
    pub xdg_runtime_dir: Option<Vec<u8>>,
}

/// The view of an optional borrowed text.
pub open spec fn opt_text(o: Option<&str>) -> Option<Seq<char>> {
    match o {
        Some(s) => Some(s@),
        None => None,
    }
}

/// The directory debugging artefacts go to.
pub fn debug_dir() -> (dir: String)
    ensures
        dir@ == DEBUG_CAPTURE_DIR@,
{
    DEBUG_CAPTURE_DIR.to_owned()
}

/// The temporary file a macOS screenshot is written to, named after the time of the
/// capture (`millis` since the Unix epoch) and the image format's extension.
pub open spec fn temp_capture_path_text(millis: nat, ext: Seq<char>) -> Seq<char> {
    "/private/tmp/glance-capture-"@ + dec_digits(millis) + "."@ + ext
}

/// The path of the temporary screenshot file taken `millis` milliseconds after the Unix
/// epoch, with extension `ext`.
pub fn temp_capture_path(millis: u128, ext: &str) -> (path: String)
    ensures
        path@ == temp_capture_path_text(millis as nat, ext@),
{
    let mut path = "/private/tmp/glance-capture-".to_owned();
    push_decimal(&mut path, millis);
    path.append(".");
    path.append(ext);
    assert(path@ =~= temp_capture_path_text(millis as nat, ext@));
    path
}

/// The file name of a temporary Wayland screenshot taken by process `pid` at `millis`
/// milliseconds after the Unix epoch, with extension `ext`.
pub open spec fn wayland_capture_file_name_text(pid: nat, millis: nat, ext: Seq<char>) -> Seq<char> {
    "glance-wayland-capture-"@ + dec_digits(pid) + "-"@ + dec_digits(millis) + "."@ + ext
}

/// The name of the temporary file a Wayland screenshot is written to (in the system's
/// temporary directory).
pub fn wayland_capture_file_name(pid: u32, millis: u128, ext: &str) -> (name: String)
    ensures
        name@ == wayland_capture_file_name_text(pid as nat, millis as nat, ext@),
{
    let mut name = "glance-wayland-capture-".to_owned();
    push_decimal(&mut name, pid as u128);
    name.append("-");
    push_decimal(&mut name, millis);
    name.append(".");
    name.append(ext);
    assert(name@ =~= wayland_capture_file_name_text(pid as nat, millis as nat, ext@));
    name
}

// ── Session detection ──────────────────────────────────────────────────────

/// Whether the session is a Wayland one: `XDG_SESSION_TYPE` is `wayland`, or
/// `WAYLAND_DISPLAY` is set.
pub fn wayland_session_detected(session_type: Option<&str>, wayland_display_set: bool) -> (r: bool)
    ensures
        r == (opt_text(session_type) == Some("wayland"@) || wayland_display_set),
{
    let is_wayland_type = match session_type {
        Some(t) => same_text(t, "wayland"),
        None => false,
    };
    is_wayland_type || wayland_display_set
}

/// The ASCII-lowercased text mentions `hypr`.
pub open spec fn mentions_hypr(s: Option<Seq<char>>) -> bool {
    match s {
        Some(t) => contains_text(ascii_lower(t), "hypr"@),
        None => false,
    }
}

fn mentions_hypr_exec(s: Option<&str>) -> (r: bool)
    ensures
        r == mentions_hypr(opt_text(s)),
{
    match s {
        Some(t) => {
            let lower = ascii_lowercase_chars(&chars_of(t));
            contains_chars(&lower, &chars_of("hypr"))
        },
        None => false,
    }
}

/// Whether the session is probably Hyprland: `HYPRLAND_INSTANCE_SIGNATURE` is set, or
/// `XDG_CURRENT_DESKTOP` or `DESKTOP_SESSION` mentions `hypr` in any ASCII case.
pub fn looks_like_hyprland_session(
    signature_set: bool,
    current_desktop: Option<&str>,
    desktop_session: Option<&str>,
) -> (r: bool)
    ensures
        r == (signature_set || mentions_hypr(opt_text(current_desktop)) || mentions_hypr(
            opt_text(desktop_session),
        )),
{
    signature_set || mentions_hypr_exec(current_desktop) || mentions_hypr_exec(desktop_session)
}

// ── Hyprland instance selection ────────────────────────────────────────────

/// The record is usable: both its signature and its socket are non-empty.
pub open spec fn instance_is_live(r: HyprlandInstanceRecord) -> bool {
    r.instance@.len() > 0 && r.wl_socket@.len() > 0
}

/// The records of `v` that are usable, in their order.
pub open spec fn live_instances(v: Seq<HyprlandInstanceRecord>) -> Seq<HyprlandInstanceRecord>
    decreases v.len(),
{
    if v.len() == 0 {
        seq![]
    } else if instance_is_live(v.last()) {
        live_instances(v.drop_last()).push(v.last())
    } else {
        live_instances(v.drop_last())
    }
}

/// A copy of an instance record.
pub fn copy_instance_record(r: &HyprlandInstanceRecord) -> (c: HyprlandInstanceRecord)
    ensures
        c == *r,
{
    HyprlandInstanceRecord { instance: r.instance.clone(), wl_socket: r.wl_socket.clone() }
}

/// Keeps the records that name both an instance signature and a socket.
pub fn retain_live_instances(v: Vec<HyprlandInstanceRecord>) -> (r: Vec<HyprlandInstanceRecord>)
    ensures
        r@ == live_instances(v@),
{
    let mut r: Vec<HyprlandInstanceRecord> = Vec::new();
    let mut i: usize = 0;
    while i < v.len()
        invariant
            i <= v.len(),
            r@ == live_instances(v@.take(i as int)),
        decreases v.len() - i,
    {
        let rec = &v[i];
        assert(v@.take(i + 1).drop_last() =~= v@.take(i as int));
        if !rec.instance.as_str().is_empty() && !rec.wl_socket.as_str().is_empty() {
            r.push(copy_instance_record(rec));
        }
        i = i + 1;
    }
    assert(v@.take(v.len() as int) =~= v@);
    r
}

/// Index of the first record at or after `i` whose signature is `sig`.
pub open spec fn first_with_signature(v: Seq<HyprlandInstanceRecord>, sig: Seq<char>, i: int) -> Option<
    int,
>
    decreases v.len() - i,
{
    if i < 0 || i >= v.len() {
        None
    } else if v[i].instance@ == sig {
        Some(i)
    } else {
        first_with_signature(v, sig, i + 1)
    }
}

/// Index of the first record at or after `i` whose socket is `socket`.
pub open spec fn first_with_socket(v: Seq<HyprlandInstanceRecord>, socket: Seq<char>, i: int) -> Option<
    int,
>
    decreases v.len() - i,
{
    if i < 0 || i >= v.len() {
        None
    } else if v[i].wl_socket@ == socket {
        Some(i)
    } else {
        first_with_socket(v, socket, i + 1)
    }
}

/// Which record to launch the capture helpers under: the one with the current
/// signature, else the one with the current socket, else the only one.
pub open spec fn selected_instance(
    v: Seq<HyprlandInstanceRecord>,
    sig: Option<Seq<char>>,
    wayland: Option<Seq<char>>,
) -> Option<int> {
    let by_signature = match sig {
        Some(s) => first_with_signature(v, s, 0),
        None => None,
    };
    let by_socket = match wayland {
        Some(w) => first_with_socket(v, w, 0),
        None => None,
    };
    if by_signature is Some {
        by_signature
    } else if by_socket is Some {
        by_socket
    } else if v.len() == 1 {
        Some(0)
    } else {
        None
    }
}

fn find_by_signature(instances: &[HyprlandInstanceRecord], sig: &str) -> (r: Option<usize>)
    ensures
        match r {
            Some(k) => first_with_signature(instances@, sig@, 0) == Some(k as int),
            None => first_with_signature(instances@, sig@, 0) is None,
        },
{
    let mut i: usize = 0;
    while i < instances.len()
        invariant
            i <= instances@.len(),
            first_with_signature(instances@, sig@, 0) == first_with_signature(
                instances@,
                sig@,
                i as int,
            ),
        decreases instances@.len() - i,
    {
        if same_text(instances[i].instance.as_str(), sig) {
            return Some(i);
        }
        i = i + 1;
    }
    None
}

fn find_by_socket(instances: &[HyprlandInstanceRecord], socket: &str) -> (r: Option<usize>)
    ensures
        match r {
            Some(k) => first_with_socket(instances@, socket@, 0) == Some(k as int),
            None => first_with_socket(instances@, socket@, 0) is None,
        },
{
    let mut i: usize = 0;
    while i < instances.len()
        invariant
            i <= instances@.len(),
            first_with_socket(instances@, socket@, 0) == first_with_socket(
                instances@,
                socket@,
                i as int,
            ),
        decreases instances@.len() - i,
    {
        if same_text(instances[i].wl_socket.as_str(), socket) {
            return Some(i);
        }
        i = i + 1;
    }
    None
}

/// Picks the Hyprland instance whose signature is `current_signature`; failing that,
/// the one whose socket is `current_wayland`; failing that, the only instance there is.
pub fn select_hyprland_instance<'a>(
    instances: &'a [HyprlandInstanceRecord],
    current_signature: Option<&str>,
    current_wayland: Option<&str>,
) -> (r: Option<&'a HyprlandInstanceRecord>)
    ensures
        match selected_instance(instances@, opt_text(current_signature), opt_text(current_wayland)) {
            Some(k) => r matches Some(x) && *x == instances@[k] && 0 <= k < instances@.len(),
            None => r is None,
        },
{
    if let Some(signature) = current_signature {
        if let Some(k) = find_by_signature(instances, signature) {
            proof {
                lemma_first_with_signature_in_range(instances@, signature@, 0);
            }
            return Some(&instances[k]);
        }
    }
    if let Some(wayland_display) = current_wayland {
        if let Some(k) = find_by_socket(instances, wayland_display) {
            proof {
                lemma_first_with_socket_in_range(instances@, wayland_display@, 0);
            }
            return Some(&instances[k]);
        }
    }
    if instances.len() == 1 {
        return Some(&instances[0]);
    }
    None
}

/// What `first_with_signature` finds is a record at or after `i` with that signature.
pub proof fn lemma_first_with_signature_in_range(
    v: Seq<HyprlandInstanceRecord>,
    sig: Seq<char>,
    i: int,
)
    ensures
        first_with_signature(v, sig, i) matches Some(k) ==> i <= k < v.len() && v[k].instance@
            == sig,
    decreases v.len() - i,
{
    if i < 0 || i >= v.len() {
    } else if v[i].instance@ == sig {
    } else {
        lemma_first_with_signature_in_range(v, sig, i + 1);
    }
}

/// What `first_with_socket` finds is a record at or after `i` with that socket.
pub proof fn lemma_first_with_socket_in_range(v: Seq<HyprlandInstanceRecord>, socket: Seq<char>, i: int)
    ensures
        first_with_socket(v, socket, i) matches Some(k) ==> i <= k < v.len() && v[k].wl_socket@
            == socket,
    decreases v.len() - i,
{
    if i < 0 || i >= v.len() {
    } else if v[i].wl_socket@ == socket {
    } else {
        lemma_first_with_socket_in_range(v, socket, i + 1);
    }
}

/// The launch environment chosen for the capture helpers: the selected instance's
/// socket and signature with the current runtime directory, kept only when it differs
/// from the current environment.
pub open spec fn resolved_launch_env(
    v: Seq<HyprlandInstanceRecord>,
    sig: Option<Seq<char>>,
    wayland: Option<Seq<char>>,
) -> Option<int> {
    match selected_instance(v, sig, wayland) {
        Some(k) => if wayland == Some(v[k].wl_socket@) && sig == Some(v[k].instance@) {
            None
        } else {
            Some(k)
        },
        None => None,
    }
}

/// Decides the environment overrides for the Wayland capture helpers on Hyprland:
/// `None` when no instance fits or the current environment already names it.
pub fn resolve_hyprland_launch_env(
    instances: &[HyprlandInstanceRecord],
    current_signature: Option<&str>,
    current_wayland: Option<&str>,
    runtime_dir: Option<Vec<u8>>,
) -> (r: Option<WaylandLaunchEnv>)
    ensures
        match resolved_launch_env(
            instances@,
            opt_text(current_signature),
            opt_text(current_wayland),
        ) {
            Some(k) => {
                &&& r matches Some(env)
                &&& r->0.wayland_display@ == instances@[k].wl_socket@
                &&& r->0.hyprland_instance_signature matches Some(s)
                &&& r->0.hyprland_instance_signature->0@ == instances@[k].instance@
                &&& r->0.xdg_runtime_dir == runtime_dir
            },
            None => r is None,
        },
{
    let selected = match select_hyprland_instance(instances, current_signature, current_wayland) {
        Some(s) => s,
        None => return None,
    };
    let same_wayland = match current_wayland {
        Some(w) => same_text(w, selected.wl_socket.as_str()),
        None => false,
    };
    let same_signature = match current_signature {
        Some(s) => same_text(s, selected.instance.as_str()),
        None => false,
    };
    if same_wayland && same_signature {
        return None;
    }
    Some(
        WaylandLaunchEnv {
            wayland_display: selected.wl_socket.clone(),
            hyprland_instance_signature: Some(selected.instance.clone()),
            xdg_runtime_dir: runtime_dir,
        },
    )
}

// ── slurp geometry ─────────────────────────────────────────────────────────

/// The error for a coordinate of the `slurp` output that is not an integer.
pub open spec fn slurp_field_error(field: Seq<char>, k: IntParseError) -> ErrorView {
    ErrorView::Parse("invalid slurp "@ + field + ": "@ + int_error_text(k))
}

/// What `parse_slurp_geometry` gives for the text `g` printed by `slurp -f "%x,%y %wx%h"`.
pub open spec fn slurp_geometry(g: Seq<char>) -> Result<(i32, i32, u32, u32), ErrorView> {
    match split_once_at(g, ' ') {
        None => Err(ErrorView::Parse("slurp output missing size"@)),
        Some((position, size)) => match split_once_at(position, ',') {
            None => Err(ErrorView::Parse("slurp output missing coordinates"@)),
            Some((x_text, y_text)) => match split_once_at(size, 'x') {
                None => Err(ErrorView::Parse("slurp output missing dimensions"@)),
                Some((w_text, h_text)) => match parse_i32_text(x_text) {
                    Err(k) => Err(slurp_field_error("x"@, k)),
                    Ok(x) => match parse_i32_text(y_text) {
                        Err(k) => Err(slurp_field_error("y"@, k)),
                        Ok(y) => match parse_u32_text(w_text) {
                            Err(k) => Err(slurp_field_error("width"@, k)),
                            Ok(w) => match parse_u32_text(h_text) {
                                Err(k) => Err(slurp_field_error("height"@, k)),
                                Ok(h) => Ok((x as i32, y as i32, w as u32, h as u32)),
                            },
                        },
                    },
                },
            },
        },
    }
}

/// The text `slurp -f "%x,%y %wx%h"` prints for a region.
pub open spec fn slurp_geometry_text(x: i32, y: i32, w: u32, h: u32) -> Seq<char> {
    int_text(x as int) + seq![','] + int_text(y as int) + seq![' '] + dec_digits(w as nat) + seq![
        'x',
    ] + dec_digits(h as nat)
}

/// Every character `Display` writes for an integer is a digit or `-`.
proof fn lemma_int_text_chars(n: int)
    ensures
        forall|j: int|
            0 <= j < int_text(n).len() ==> is_digit(#[trigger] int_text(n)[j]) || int_text(n)[j]
                == '-',
{
    if n >= 0 {
        lemma_dec_digits_value(n as nat);
    } else {
        lemma_dec_digits_value((-n) as nat);
        let d = dec_digits((-n) as nat);
        assert forall|j: int| 0 <= j < int_text(n).len() implies is_digit(
            #[trigger] int_text(n)[j],
        ) || int_text(n)[j] == '-' by {
            if j > 0 {
                assert(int_text(n)[j] == d[j - 1]);
            }
        }
    }
}

/// Parsing the text `slurp` prints for a region gives back that region.
pub proof fn law_slurp_geometry_round_trip(x: i32, y: i32, w: u32, h: u32)
    ensures
        slurp_geometry(slurp_geometry_text(x, y, w, h)) == Ok::<_, ErrorView>((x, y, w, h)),
{
    let xt = int_text(x as int);
    let yt = int_text(y as int);
    let wt = dec_digits(w as nat);
    let ht = dec_digits(h as nat);
    lemma_int_text_chars(x as int);
    lemma_int_text_chars(y as int);
    lemma_dec_digits_value(w as nat);
    lemma_dec_digits_value(h as nat);
    let position = xt + seq![','] + yt;
    let size = wt + seq!['x'] + ht;
    assert(slurp_geometry_text(x, y, w, h) =~= position + seq![' '] + size);
    assert forall|j: int| 0 <= j < position.len() implies position[j] != ' ' by {
        if j < xt.len() {
            assert(position[j] == xt[j]);
        } else if j > xt.len() {
            assert(position[j] == yt[j - xt.len() - 1]);
        }
    }
    lemma_split_at_first(position, ' ', size);
    assert forall|j: int| 0 <= j < xt.len() implies xt[j] != ',' by {}
    lemma_split_at_first(xt, ',', yt);
    assert forall|j: int| 0 <= j < wt.len() implies wt[j] != 'x' by {
        assert(is_digit(wt[j]));
    }
    lemma_split_at_first(wt, 'x', ht);
    lemma_parse_int_text_of(x as int, true, i32::MIN as int, i32::MAX as int);
    lemma_parse_int_text_of(y as int, true, i32::MIN as int, i32::MAX as int);
    lemma_parse_int_text_of(w as int, false, 0, u32::MAX as int);
    lemma_parse_int_text_of(h as int, false, 0, u32::MAX as int);
}

fn slurp_field_failure(field: &str, k: IntParseError) -> (e: AppError)
    ensures
        e@ == slurp_field_error(field@, k),
{
    let mut m = "invalid slurp ".to_owned();
    m.append(field);
    m.append(": ");
    let detail = int_error_message(k);
    m.append(detail.as_str());
    AppError::Parse(m)
}

/// Parses `slurp`'s `x,y wxh` output into the region's position and size.
pub fn parse_slurp_geometry(geometry: &str) -> (r: AppResult<(i32, i32, u32, u32)>)
    ensures
        result_view(r) == slurp_geometry(geometry@),
{
    let g = chars_of(geometry);
    let (position, size) = match split_once_chars(&g, ' ') {
        Some(parts) => parts,
        None => return Err(AppError::Parse("slurp output missing size".to_owned())),
    };
    let (x_text, y_text) = match split_once_chars(&position, ',') {
        Some(parts) => parts,
        None => return Err(AppError::Parse("slurp output missing coordinates".to_owned())),
    };
    let (w_text, h_text) = match split_once_chars(&size, 'x') {
        Some(parts) => parts,
        None => return Err(AppError::Parse("slurp output missing dimensions".to_owned())),
    };
    let x = match parse_i32_chars(&x_text) {
        Ok(v) => v,
        Err(k) => return Err(slurp_field_failure("x", k)),
    };
    let y = match parse_i32_chars(&y_text) {
        Ok(v) => v,
        Err(k) => return Err(slurp_field_failure("y", k)),
    };
    let width = match parse_u32_chars(&w_text) {
        Ok(v) => v,
        Err(k) => return Err(slurp_field_failure("width", k)),
    };
    let height = match parse_u32_chars(&h_text) {
        Ok(v) => v,
        Err(k) => return Err(slurp_field_failure("height", k)),
    };
    Ok((x, y, width, height))
}


// ── Helper-program failures ────────────────────────────────────────────────

/// The part of a launch environment a failure message mentions.
pub open spec fn mentioned_env(o: Option<&WaylandLaunchEnv>) -> Option<(Seq<char>, Option<Seq<char>>)> {
    match o {
        Some(env) => Some(
            (
                env.wayland_display@,
                match env.hyprland_instance_signature {
                    Some(s) => Some(s@),
                    None => None,
                },
            ),
        ),
        None => None,
    }
}

/// What a failure message says about the environment overrides in use.
pub open spec fn env_note(env: Option<(Seq<char>, Option<Seq<char>>)>) -> Seq<char> {
    match env {
        None => seq![],
        Some((display, Some(signature))) => " (Hyprland env override: WAYLAND_DISPLAY="@ + display
            + ", HYPRLAND_INSTANCE_SIGNATURE="@ + signature + ")"@,
        Some((display, None)) => " (Wayland env override: WAYLAND_DISPLAY="@ + display + ")"@,
    }
}

/// The advice given when the compositor lacks the screen-capture protocol.
pub open spec fn binding_hint() -> Seq<char> {
    "; if this was launched by a desktop entry or app-level global shortcut, prefer binding `glance --capture` directly in `hyprland.conf`"@
}

/// The message for a failed Wayland capture helper run.
pub open spec fn wayland_failure_text(
    program: Seq<char>,
    stderr: Seq<u8>,
    env: Option<(Seq<char>, Option<Seq<char>>)>,
) -> Seq<char> {
    let detail = trimmed(lossy_text(stderr));
    program + " failed: "@ + detail + env_note(env) + if contains_text(
        detail,
        "screen capture protocol"@,
    ) {
        binding_hint()
    } else {
        seq![]
    }
}

/// Describes a failed run of a Wayland capture helper: its trimmed error output, the
/// environment overrides in use, and advice when the screen-capture protocol is missing.
pub fn format_wayland_capture_failure(
    program: &str,
    stderr: &[u8],
    launch_env: Option<&WaylandLaunchEnv>,
) -> (m: String)
    ensures
        m@ == wayland_failure_text(program@, stderr@, mentioned_env(launch_env)),
{
    let lossy = utf8_lossy(stderr);
    let detail = trim_text(lossy.as_str());
    let mut message = program.to_owned();
    message.append(" failed: ");
    message.append(detail.as_str());
    if let Some(env) = launch_env {
        if let Some(signature) = &env.hyprland_instance_signature {
            message.append(" (Hyprland env override: WAYLAND_DISPLAY=");
            message.append(env.wayland_display.as_str());
            message.append(", HYPRLAND_INSTANCE_SIGNATURE=");
            message.append(signature.as_str());
            message.append(")");
        } else {
            message.append(" (Wayland env override: WAYLAND_DISPLAY=");
            message.append(env.wayland_display.as_str());
            message.append(")");
        }
    }
    if contains_chars(&chars_of(detail.as_str()), &chars_of("screen capture protocol")) {
        message.append(
            "; if this was launched by a desktop entry or app-level global shortcut, prefer binding `glance --capture` directly in `hyprland.conf`",
        );
    }
    assert(message@ =~= wayland_failure_text(program@, stderr@, mentioned_env(launch_env)));
    message
}

/// Whether `grim` failed because the compositor lacks the wlroots screen-capture
/// protocol (its error output mentions `screen capture protocol`, in any ASCII case).
pub fn is_missing_wlr_screencopy_error(stderr: &[u8]) -> (r: bool)
    ensures
        r == contains_text(ascii_lower(lossy_text(stderr@)), "screen capture protocol"@),
{
    let text = utf8_lossy(stderr);
    let lower = ascii_lowercase_chars(&chars_of(text.as_str()));
    contains_chars(&lower, &chars_of("screen capture protocol"))
}

/// What to do after a `grim` run.
#[derive(Debug)]
pub enum GrimNext {
    /// `grim` succeeded: its output is the screenshot.
    UseOutput,
    /// The compositor lacks the screen-capture protocol: fall back to a full-screen
    /// Spectacle screenshot and crop it.
    TrySpectacle,
    /// `grim` failed otherwise.
    Fail(AppError),
}

/// Decides how to go on after `grim` ran: use its output when it succeeded, fall back
/// to Spectacle when the screen-capture protocol is missing, fail otherwise.
pub fn grim_next(success: bool, stderr: &[u8], launch_env: Option<&WaylandLaunchEnv>) -> (n: GrimNext)
    ensures
        success ==> n is UseOutput,
        !success && contains_text(ascii_lower(lossy_text(stderr@)), "screen capture protocol"@)
            ==> n is TrySpectacle,
        !success && !contains_text(ascii_lower(lossy_text(stderr@)), "screen capture protocol"@)
            ==> (n matches GrimNext::Fail(e) && e@ == ErrorView::Capture(
            wayland_failure_text("grim"@, stderr@, mentioned_env(launch_env)),
        )),
{
    if success {
        GrimNext::UseOutput
    } else if is_missing_wlr_screencopy_error(stderr) {
        GrimNext::TrySpectacle
    } else {
        GrimNext::Fail(AppError::Capture(format_wayland_capture_failure("grim", stderr, launch_env)))
    }
}

/// The error when `grim` lacked the screen-capture protocol and the Spectacle fallback
/// failed too with the message `fallback`.
pub fn spectacle_fallback_failure(
    stderr: &[u8],
    launch_env: Option<&WaylandLaunchEnv>,
    fallback: &str,
) -> (e: AppError)
    ensures
        e@ == ErrorView::Capture(
            wayland_failure_text("grim"@, stderr@, mentioned_env(launch_env))
                + "; KDE/Spectacle fallback failed: "@ + fallback@,
        ),
{
    let mut message = format_wayland_capture_failure("grim", stderr, launch_env);
    message.append("; KDE/Spectacle fallback failed: ");
    message.append(fallback);
    AppError::Capture(message)
}

/// The error when `hyprctl -j instances` fails: its trimmed error output.
pub fn hyprctl_failure(stderr: &[u8]) -> (e: AppError)
    ensures
        e@ == ErrorView::Capture("hyprctl -j instances failed: "@ + trimmed(lossy_text(stderr@))),
{
    let lossy = utf8_lossy(stderr);
    let detail = trim_text(lossy.as_str());
    let mut message = "hyprctl -j instances failed: ".to_owned();
    message.append(detail.as_str());
    AppError::Capture(message)
}

// ── slurp outcome ──────────────────────────────────────────────────────────

/// The region the user picked with `slurp`.
#[derive(Debug, Clone)]
pub struct SlurpSelection {
    /// The trimmed `x,y wxh` text, handed on to `grim -g`.
    pub geometry: String,
    pub rect_x: i32,
    pub rect_y: i32,
    pub width: u32,
    pub height: u32,
}

/// How a `slurp` run ends: the picked region, nothing (cancelled, empty or too small),
/// or an error.
pub open spec fn slurp_outcome(
    success: bool,
    exit_code: Option<i32>,
    stdout: Seq<u8>,
    stderr: Seq<u8>,
    env: Option<(Seq<char>, Option<Seq<char>>)>,
) -> Result<Option<(Seq<char>, i32, i32, u32, u32)>, ErrorView> {
    if !success {
        if exit_code == Some(1i32) {
            Ok(None)
        } else {
            Err(ErrorView::Capture(wayland_failure_text("slurp"@, stderr, env)))
        }
    } else if !valid_utf8(stdout) {
        Err(ErrorView::Capture("slurp returned invalid UTF-8: "@ + utf8_error_text(stdout)))
    } else {
        let g = trimmed(decode_utf8(stdout));
        if g.len() == 0 {
            Ok(None)
        } else {
            match slurp_geometry(g) {
                Err(e) => Err(e),
                Ok((x, y, w, h)) => if w <= 4 || h <= 4 {
                    Ok(None)
                } else {
                    Ok(Some((g, x, y, w, h)))
                },
            }
        }
    }
}

/// The view of a `slurp` outcome.
pub open spec fn slurp_view(r: AppResult<Option<SlurpSelection>>) -> Result<
    Option<(Seq<char>, i32, i32, u32, u32)>,
    ErrorView,
> {
    match r {
        Ok(Some(s)) => Ok(Some((s.geometry@, s.rect_x, s.rect_y, s.width, s.height))),
        Ok(None) => Ok(None),
        Err(e) => Err(e@),
    }
}

/// Judges a finished `slurp` run from its exit status and output.
pub fn slurp_selection(
    success: bool,
    exit_code: Option<i32>,
    stdout: Vec<u8>,
    stderr: &[u8],
    launch_env: Option<&WaylandLaunchEnv>,
) -> (r: AppResult<Option<SlurpSelection>>)
    ensures
        slurp_view(r) == slurp_outcome(
            success,
            exit_code,
            stdout@,
            stderr@,
            mentioned_env(launch_env),
        ),
{
    if !success {
        let cancelled = match exit_code {
            Some(c) => c == 1,
            None => false,
        };
        if cancelled {
            return Ok(None);
        }
        return Err(AppError::Capture(format_wayland_capture_failure("slurp", stderr, launch_env)));
    }
    let text = match utf8_string(stdout) {
        Ok(t) => t,
        Err(m) => {
            let mut msg = "slurp returned invalid UTF-8: ".to_owned();
            msg.append(m.as_str());
            return Err(AppError::Capture(msg));
        },
    };
    let geometry = trim_text(text.as_str());
    if geometry.as_str().is_empty() {
        return Ok(None);
    }
    let (rect_x, rect_y, width, height) = match parse_slurp_geometry(geometry.as_str()) {
        Ok(v) => v,
        Err(e) => return Err(e),
    };
    if width <= 4 || height <= 4 {
        return Ok(None);
    }
    Ok(Some(SlurpSelection { geometry, rect_x, rect_y, width, height }))
}

// ── Captured images ────────────────────────────────────────────────────────

/// Encodes a `w`×`h` RGBA image as PNG.
pub fn encode_rgba_png(rgba: &[u8], w: u32, h: u32) -> (r: AppResult<Vec<u8>>)
    requires
        holds_rgba(rgba@, w, h),
    ensures
        match r {
            Ok(b) => png_encoding(rgba@, w, h) == Ok::<_, Seq<char>>(b@),
            Err(e) => png_encoding(rgba@, w, h) matches Err(m) && e@ == ErrorView::Capture(
                "png encode failed: "@ + m,
            ),
        },
{
    match png_encode(rgba, w, h) {
        Ok(b) => Ok(b),
        Err(m) => {
            let mut msg = "png encode failed: ".to_owned();
            msg.append(m.as_str());
            Err(AppError::Capture(msg))
        },
    }
}

/// The message for a region that starts outside the screenshot.
pub open spec fn outside_region_text(rx: i32, ry: i32, w: u32, h: u32, iw: u32, ih: u32) -> Seq<
    char,
> {
    "selected region starts outside spectacle screenshot: region=("@ + int_text(rx as int) + ", "@
        + int_text(ry as int) + ") "@ + dec_digits(w as nat) + "x"@ + dec_digits(h as nat)
        + ", screenshot="@ + dec_digits(iw as nat) + "x"@ + dec_digits(ih as nat)
}

/// What cropping the region `(rx, ry, w, h)` out of a full-screen screenshot gives.
pub open spec fn spectacle_crop(png: Seq<u8>, rx: i32, ry: i32, w: u32, h: u32) -> Result<
    Seq<u8>,
    ErrorView,
> {
    match decoded_rgba(png) {
        Err(m) => Err(ErrorView::Image(m)),
        Ok((pixels, iw, ih)) => {
            let x: int = if rx < 0 {
                0
            } else {
                rx as int
            };
            let y: int = if ry < 0 {
                0
            } else {
                ry as int
            };
            if x >= iw || y >= ih {
                Err(ErrorView::Capture(outside_region_text(rx, ry, w, h, iw, ih)))
            } else {
                let cw: int = if (w as int) < iw - x {
                    w as int
                } else {
                    iw - x
                };
                let ch: int = if (h as int) < ih - y {
                    h as int
                } else {
                    ih - y
                };
                if cw == 0 || ch == 0 {
                    Err(ErrorView::Capture("selected region is empty after spectacle crop"@))
                } else {
                    match png_encoding(
                        crop_pixels(pixels, iw as int, x, y, cw, ch),
                        cw as u32,
                        ch as u32,
                    ) {
                        Ok(b) => Ok(b),
                        Err(m) => Err(ErrorView::Capture("png encode failed: "@ + m)),
                    }
                }
            }
        },
    }
}

/// Crops the region `(rect_x, rect_y, width, height)` out of a full-screen PNG
/// screenshot (clamped to the screenshot) and encodes it as PNG.
pub fn crop_png_bytes(png_bytes: &[u8], rect_x: i32, rect_y: i32, width: u32, height: u32) -> (r:
    AppResult<Vec<u8>>)
    ensures
        result_view(r) matches Ok(b) ==> spectacle_crop(png_bytes@, rect_x, rect_y, width, height)
            == Ok::<_, ErrorView>(b@),
        result_view(r) matches Err(e) ==> spectacle_crop(
            png_bytes@,
            rect_x,
            rect_y,
            width,
            height,
        ) == Err::<Seq<u8>, _>(e),
{
    let (pixels, image_width, image_height) = match load_rgba(png_bytes) {
        Ok(img) => img,
        Err(m) => return Err(AppError::Image(m)),
    };
    let x: u32 = if rect_x < 0 {
        0
    } else {
        rect_x as u32
    };
    let y: u32 = if rect_y < 0 {
        0
    } else {
        rect_y as u32
    };
    if x >= image_width || y >= image_height {
        let mut msg = "selected region starts outside spectacle screenshot: region=(".to_owned();
        push_signed_decimal(&mut msg, rect_x as i64);
        msg.append(", ");
        push_signed_decimal(&mut msg, rect_y as i64);
        msg.append(") ");
        push_decimal(&mut msg, width as u128);
        msg.append("x");
        push_decimal(&mut msg, height as u128);
        msg.append(", screenshot=");
        push_decimal(&mut msg, image_width as u128);
        msg.append("x");
        push_decimal(&mut msg, image_height as u128);
        assert(msg@ =~= outside_region_text(
            rect_x,
            rect_y,
            width,
            height,
            image_width,
            image_height,
        ));
        return Err(AppError::Capture(msg));
    }
    let crop_width = if width < image_width - x {
        width
    } else {
        image_width - x
    };
    let crop_height = if height < image_height - y {
        height
    } else {
        image_height - y
    };
    if crop_width == 0 || crop_height == 0 {
        return Err(AppError::Capture("selected region is empty after spectacle crop".to_owned()));
    }
    let cropped = crop_image(&pixels, image_width, image_height, x, y, crop_width, crop_height);
    assert(0 <= (crop_width as int) * (crop_height as int) * 4) by (nonlinear_arith);
    encode_rgba_png(&cropped, crop_width, crop_height)
}

/// Cropping a region that lies inside the screenshot encodes exactly that region: the
/// PNG encoder is handed `width * height` pixels, pixel `(i, j)` of which is the
/// screenshot's pixel `(rect_x + i, rect_y + j)`, as a `width`×`height` image.
pub proof fn law_spectacle_crop_takes_region(
    png: Seq<u8>,
    pixels: Seq<u8>,
    iw: u32,
    ih: u32,
    rect_x: i32,
    rect_y: i32,
    width: u32,
    height: u32,
)
    requires
        decoded_rgba(png) == Ok::<_, Seq<char>>((pixels, iw, ih)),
        0 <= rect_x,
        0 <= rect_y,
        0 < width,
        0 < height,
        rect_x + width <= iw,
        rect_y + height <= ih,
    ensures
        ({
            let region = crop_pixels(
                pixels,
                iw as int,
                rect_x as int,
                rect_y as int,
                width as int,
                height as int,
            );
            &&& spectacle_crop(png, rect_x, rect_y, width, height) == match png_encoding(
                region,
                width,
                height,
            ) {
                Ok(b) => Ok(b),
                Err(m) => Err(ErrorView::Capture("png encode failed: "@ + m)),
            }
            &&& region.len() == width * height * 4
            &&& forall|i: int, j: int, k: int|
                0 <= i < width && 0 <= j < height && 0 <= k < 4 ==> #[trigger] region[(j * width + i)
                    * 4 + k] == pixels[((rect_y + j) * iw + rect_x + i) * 4 + k]
        }),
{
    let region = crop_pixels(
        pixels,
        iw as int,
        rect_x as int,
        rect_y as int,
        width as int,
        height as int,
    );
    assert forall|i: int, j: int, k: int|
        0 <= i < width && 0 <= j < height && 0 <= k < 4 implies #[trigger] region[(j * width + i) * 4
            + k] == pixels[((rect_y + j) * iw + rect_x + i) * 4 + k] by {
        law_crop_pixels_are_region(
            pixels,
            iw as nat,
            rect_x as nat,
            rect_y as nat,
            width as nat,
            height as nat,
            i,
            j,
            k,
        );
    }
    law_crop_pixels_are_region(
        pixels,
        iw as nat,
        rect_x as nat,
        rect_y as nat,
        width as nat,
        height as nat,
        0,
        0,
        0,
    );
}

/// A Wayland capture from the PNG `grim` wrote for the region at `(rect_x, rect_y)`.
pub fn wayland_capture_from_png(png_bytes: Vec<u8>, rect_x: i32, rect_y: i32) -> (r: AppResult<
    LinuxWaylandCapture,
>)
    ensures
        match r {
            Ok(c) => guessed_rgba(png_bytes@) == Ok::<_, Seq<char>>(
                Ok::<_, Seq<char>>((c.rgba_bytes@, c.width, c.height)),
            ) && c.png_bytes@ == png_bytes@ && c.rect_x == rect_x && c.rect_y == rect_y
                && exact_rgba(c.rgba_bytes@, c.width, c.height),
            Err(e) => match guessed_rgba(png_bytes@) {
                Err(m) => e@ == ErrorView::Io(m),
                Ok(Err(m)) => e@ == ErrorView::Image(m),
                Ok(Ok(_)) => false,
            },
        },
{
    let (rgba_bytes, width, height) = match read_guessed_rgba(&png_bytes) {
        Ok(Ok(img)) => img,
        Ok(Err(m)) => return Err(AppError::Image(m)),
        Err(m) => return Err(AppError::Io(m)),
    };
    Ok(LinuxWaylandCapture { png_bytes, rgba_bytes, width, height, rect_x, rect_y })
}

/// A whole-display capture from the JPEG the system screenshot tool wrote.
pub fn captured_screen_from_jpeg(jpeg_bytes: Vec<u8>) -> (r: AppResult<CapturedScreenImage>)
    ensures
        match r {
            Ok(c) => decoded_rgba(jpeg_bytes@) == Ok::<_, Seq<char>>(
                (c.rgba_bytes@, c.width, c.height),
            ) && c.preview_bytes@ == jpeg_bytes@ && c.preview_mime@ == "image/jpeg"@
                && exact_rgba(c.rgba_bytes@, c.width, c.height),
            Err(e) => decoded_rgba(jpeg_bytes@) matches Err(m) && e@ == ErrorView::Image(m),
        },
{
    let (rgba_bytes, width, height) = match load_rgba(&jpeg_bytes) {
        Ok(img) => img,
        Err(m) => return Err(AppError::Image(m)),
    };
    Ok(
        CapturedScreenImage {
            preview_bytes: jpeg_bytes,
            preview_mime: "image/jpeg",
            rgba_bytes,
            width,
            height,
        },
    )
}

/// An interactive capture from the PNG the system screenshot tool wrote: nothing when
/// the file is empty (the user cancelled).
pub fn interactive_capture_from_png(png_bytes: Vec<u8>) -> (r: AppResult<
    Option<InteractiveCaptureImage>,
>)
    ensures
        png_bytes@.len() == 0 ==> r matches Ok(None),
        png_bytes@.len() > 0 ==> match r {
            Ok(Some(c)) => decoded_png_rgba(png_bytes@) == Ok::<_, Seq<char>>(
                (c.rgba_bytes@, c.width, c.height),
            ) && c.png_bytes@ == png_bytes@ && exact_rgba(c.rgba_bytes@, c.width, c.height),
            Ok(None) => false,
            Err(e) => decoded_png_rgba(png_bytes@) matches Err(m) && e@ == ErrorView::Image(m),
        },
{
    if png_bytes.len() == 0 {
        return Ok(None);
    }
    let (rgba_bytes, width, height) = match load_png_rgba(&png_bytes) {
        Ok(img) => img,
        Err(m) => return Err(AppError::Image(m)),
    };
    Ok(Some(InteractiveCaptureImage { png_bytes, rgba_bytes, width, height }))
}

} // verus!
