//! Pixel work for the native selection window: converting screenshots to the
//! window buffer's format, copying rectangles, outlining the selection, cropping,
//! and the event a finished selection produces.
//!
//! Positions and sizes are computed exactly (no wrap-around): a row or pixel whose
//! position falls outside a buffer is skipped.
use vstd::prelude::*;
use vstd::string::*;

use crate::error::{AppError, AppResult, ErrorView, result_view};
use crate::image_codec::{crop_pixels, holds_rgba, png_encode, png_encoding};
use vstd::arithmetic::div_mod::lemma_fundamental_div_mod_converse;

verus! {

/// Events the capture window reports.
#[derive(Debug, Clone, Copy, PartialEq, Eq, Structural)]
pub enum CaptureEvent {
    /// The user finished dragging a selection.
    Selection { x: u32, y: u32, w: u32, h: u32 },
    /// The user pressed ESC, right-clicked, or the window was closed.
    Cancelled,
}

/// The event a finished drag produces: a selection larger than 4×4 pixels is
/// reported, anything smaller is ignored.
pub open spec fn selection_outcome(selection: Option<(u32, u32, u32, u32)>) -> Option<CaptureEvent> {
    match selection {
        Some((x, y, w, h)) => if w > 4 && h > 4 {
            Some(CaptureEvent::Selection { x, y, w, h })
        } else {
            None
        },
        None => None,
    }
}

/// The event to report when the user releases the mouse with `selection` made.
pub fn finish_selection(selection: Option<(u32, u32, u32, u32)>) -> (r: Option<CaptureEvent>)
    ensures
        r == selection_outcome(selection),
{
    match selection {
        Some((x, y, w, h)) => if w > 4 && h > 4 {
            Some(CaptureEvent::Selection { x, y, w, h })
        } else {
            None
        },
        None => None,
    }
}

// ── Selection state of the capture window ──────────────────────────────────

/// What the capture window shows on top of the darkened screenshot.
#[derive(Debug, Clone, Copy)]
pub struct RedrawPlan {
    /// Paint the translated image (and nothing else).
    pub result: bool,
    /// The rectangle shown undarkened with a border.
    pub highlight: Option<(u32, u32, u32, u32)>,
    /// The rectangle a loading spinner is centred on.
    pub spinner: Option<(u32, u32, u32, u32)>,
    /// Ask for another frame right away (the spinner turns).
    pub animate: bool,
}

/// The user's dragging in the capture window.  Pointer positions are kept as the
/// window reports them (`P`); the rectangle between two positions is worked out by
/// the caller and handed in.
#[derive(Debug, Clone, Copy)]
pub struct SelectionTracker<P> {
    /// Where the current drag started.
    pub drag_start: Option<P>,
    /// The last pointer position.
    pub mouse_pos: P,
    /// A drag is under way.
    pub is_dragging: bool,
    /// The last finished selection `(x, y, w, h)`.
    pub selection: Option<(u32, u32, u32, u32)>,
    /// The translated image is on screen.
    pub showing_result: bool,
    /// A translation is running.
    pub loading: bool,
}

/// The selection once the left button is released: the dragged rectangle when a drag
/// with a start point was under way, otherwise unchanged.
pub open spec fn released_selection<P>(t: SelectionTracker<P>, dragged: Option<(u32, u32, u32, u32)>) -> Option<
    (u32, u32, u32, u32),
> {
    if t.is_dragging && t.drag_start is Some {
        dragged
    } else {
        t.selection
    }
}

impl<P: Copy> SelectionTracker<P> {
    /// A fresh window: nothing selected, pointer at `mouse_pos`.
    pub fn new(mouse_pos: P) -> (t: Self)
        ensures
            t.drag_start is None,
            t.mouse_pos == mouse_pos,
            !t.is_dragging,
            t.selection is None,
            !t.showing_result,
            !t.loading,
    {
        SelectionTracker {
            drag_start: None,
            mouse_pos,
            is_dragging: false,
            selection: None,
            showing_result: false,
            loading: false,
        }
    }

    /// The pointer moved to `pos`; returns whether the window must be redrawn (it is
    /// while dragging).
    pub fn cursor_moved(&mut self, pos: P) -> (redraw: bool)
        ensures
            final(self).mouse_pos == pos,
            redraw == old(self).is_dragging,
            final(self).drag_start == old(self).drag_start,
            final(self).is_dragging == old(self).is_dragging,
            final(self).selection == old(self).selection,
            final(self).showing_result == old(self).showing_result,
            final(self).loading == old(self).loading,
    {
        self.mouse_pos = pos;
        self.is_dragging
    }

    /// The left button went down: a new drag starts at the pointer, dropping the
    /// previous selection and any translated image.
    pub fn left_pressed(&mut self)
        ensures
            final(self).drag_start == Some(old(self).mouse_pos),
            final(self).mouse_pos == old(self).mouse_pos,
            final(self).is_dragging,
            final(self).selection is None,
            !final(self).showing_result,
            final(self).loading == old(self).loading,
    {
        self.drag_start = Some(self.mouse_pos);
        self.is_dragging = true;
        self.selection = None;
        self.showing_result = false;
    }

    /// The left button came up; `dragged` is the rectangle between the drag start and
    /// the pointer.  Ends the drag and returns the event to report, if any.
    pub fn left_released(&mut self, dragged: Option<(u32, u32, u32, u32)>) -> (event: Option<
        CaptureEvent,
    >)
        ensures
            final(self).selection == released_selection(*old(self), dragged),
            !final(self).is_dragging,
            old(self).is_dragging ==> final(self).drag_start is None,
            !old(self).is_dragging ==> final(self).drag_start == old(self).drag_start,
            event == if old(self).is_dragging {
                selection_outcome(final(self).selection)
            } else {
                None
            },
            final(self).mouse_pos == old(self).mouse_pos,
            final(self).showing_result == old(self).showing_result,
            final(self).loading == old(self).loading,
    {
        if !self.is_dragging {
            return None;
        }
        if self.drag_start.is_some() {
            self.selection = dragged;
        }
        self.is_dragging = false;
        self.drag_start = None;
        finish_selection(self.selection)
    }

    /// The translated image arrived: show it and stop the spinner.
    pub fn show_result(&mut self)
        ensures
            final(self).showing_result,
            !final(self).loading,
            final(self).drag_start == old(self).drag_start,
            final(self).mouse_pos == old(self).mouse_pos,
            final(self).is_dragging == old(self).is_dragging,
            final(self).selection == old(self).selection,
    {
        self.showing_result = true;
        self.loading = false;
    }

    /// A translation started: show the spinner.
    pub fn show_loading(&mut self)
        ensures
            final(self).loading,
            final(self).showing_result == old(self).showing_result,
            final(self).drag_start == old(self).drag_start,
            final(self).mouse_pos == old(self).mouse_pos,
            final(self).is_dragging == old(self).is_dragging,
            final(self).selection == old(self).selection,
    {
        self.loading = true;
    }

    /// Reacts to an input of the capture window.  Pointer and left-button inputs update
    /// the drag as `cursor_moved`, `left_pressed` and `left_released` do; ESC, a right
    /// click or a close request cancel the capture and leave the drag as it was.
    pub fn handle(&mut self, input: PointerInput<P>) -> (reaction: WindowReaction)
        ensures
            reaction == reaction_to(*old(self), input),
            cancels(input) ==> *final(self) == *old(self),
            input matches PointerInput::Moved(p) ==> *final(self) == (SelectionTracker {
                mouse_pos: p,
                ..*old(self)
            }),
            input is LeftPressed ==> *final(self) == (SelectionTracker {
                drag_start: Some(old(self).mouse_pos),
                is_dragging: true,
                selection: None,
                showing_result: false,
                ..*old(self)
            }),
            input matches PointerInput::LeftReleased(dragged) ==> *final(self) == (SelectionTracker {
                selection: released_selection(*old(self), dragged),
                is_dragging: false,
                drag_start: if old(self).is_dragging {
                    None
                } else {
                    old(self).drag_start
                },
                ..*old(self)
            }),
    {
        match input {
            PointerInput::Moved(p) => {
                let redraw = self.cursor_moved(p);
                WindowReaction { event: None, close: false, redraw }
            },
            PointerInput::LeftPressed => {
                self.left_pressed();
                WindowReaction { event: None, close: false, redraw: true }
            },
            PointerInput::LeftReleased(dragged) => {
                let event = self.left_released(dragged);
                WindowReaction { event, close: false, redraw: true }
            },
            _ => WindowReaction { event: Some(CaptureEvent::Cancelled), close: true, redraw: false },
        }
    }

    /// What to paint over the darkened screenshot; `dragged` is the rectangle between
    /// the drag start and the pointer while a drag is under way.
    pub fn redraw_plan(&self, dragged: Option<(u32, u32, u32, u32)>) -> (plan: RedrawPlan)
        ensures
            plan == planned_redraw(
                self.showing_result,
                self.is_dragging,
                self.selection,
                self.loading,
                dragged,
            ),
    {
        if self.showing_result {
            return RedrawPlan { result: true, highlight: None, spinner: None, animate: false };
        }
        let shown = if self.is_dragging {
            dragged
        } else {
            self.selection
        };
        let highlight = match shown {
            Some((x, y, w, h)) => if w > 0 && h > 0 {
                shown
            } else {
                None
            },
            None => None,
        };
        let spinner = if self.loading {
            self.selection
        } else {
            None
        };
        RedrawPlan { result: false, highlight, spinner, animate: self.loading }
    }
}

/// Input the capture window reacts to.
#[derive(Debug, Clone, Copy)]
pub enum PointerInput<P> {
    /// The pointer moved to a position.
    Moved(P),
    /// The left button went down.
    LeftPressed,
    /// The left button came up; the rectangle between the drag start and the pointer,
    /// while a drag has a start.
    LeftReleased(Option<(u32, u32, u32, u32)>),
    /// The right button went down.
    RightPressed,
    /// ESC was pressed.
    EscapePressed,
    /// The window is asked to close.
    CloseRequested,
}

/// How the capture window answers an input.
#[derive(Debug, Clone, Copy, PartialEq, Eq, Structural)]
pub struct WindowReaction {
    /// The event to report.
    pub event: Option<CaptureEvent>,
    /// Close the window.
    pub close: bool,
    /// Redraw the window.
    pub redraw: bool,
}

/// Whether an input cancels the capture: ESC, a right click, or closing the window.
pub open spec fn cancels<P>(input: PointerInput<P>) -> bool {
    match input {
        PointerInput::RightPressed | PointerInput::EscapePressed | PointerInput::CloseRequested => true,
        _ => false,
    }
}

/// The answer to an input: cancelling reports `Cancelled` and closes the window; a
/// left button press or release redraws (a release reporting the selection made, if
/// large enough); a pointer move redraws while dragging.
pub open spec fn reaction_to<P>(t: SelectionTracker<P>, input: PointerInput<P>) -> WindowReaction {
    match input {
        PointerInput::Moved(_) => WindowReaction { event: None, close: false, redraw: t.is_dragging },
        PointerInput::LeftPressed => WindowReaction { event: None, close: false, redraw: true },
        PointerInput::LeftReleased(dragged) => WindowReaction {
            event: if t.is_dragging {
                selection_outcome(released_selection(t, dragged))
            } else {
                None
            },
            close: false,
            redraw: true,
        },
        _ => WindowReaction { event: Some(CaptureEvent::Cancelled), close: true, redraw: false },
    }
}

/// ESC, a right click and a close request each report `Cancelled` and close the
/// window, whatever the state of the drag.
pub proof fn law_cancel_reports_and_closes<P>(t: SelectionTracker<P>, input: PointerInput<P>)
    requires
        cancels(input),
    ensures
        reaction_to(t, input) == (WindowReaction {
            event: Some(CaptureEvent::Cancelled),
            close: true,
            redraw: false,
        }),
{
}

/// A rectangle worth highlighting: one with some width and height.
pub open spec fn visible_rect(r: Option<(u32, u32, u32, u32)>) -> Option<(u32, u32, u32, u32)> {
    match r {
        Some((x, y, w, h)) => if w > 0 && h > 0 {
            r
        } else {
            None
        },
        None => None,
    }
}

/// What the window paints: the translated image alone once it arrived; otherwise the
/// rectangle being dragged (or the finished selection) highlighted, and a spinner on
/// the selection while a translation runs.
pub open spec fn planned_redraw(
    showing_result: bool,
    is_dragging: bool,
    selection: Option<(u32, u32, u32, u32)>,
    loading: bool,
    dragged: Option<(u32, u32, u32, u32)>,
) -> RedrawPlan {
    if showing_result {
        RedrawPlan { result: true, highlight: None, spinner: None, animate: false }
    } else {
        RedrawPlan {
            result: false,
            highlight: visible_rect(
                if is_dragging {
                    dragged
                } else {
                    selection
                },
            ),
            spinner: if loading {
                selection
            } else {
                None
            },
            animate: loading,
        }
    }
}

/// The region a capture-window event asks to translate; `None` once the window is
/// cancelled.
pub fn selection_rect(event: CaptureEvent) -> (r: Option<crate::models::CaptureRect>)
    ensures
        match event {
            CaptureEvent::Selection { x, y, w, h } => r == Some(
                crate::models::CaptureRect { x, y, width: w, height: h },
            ),
            CaptureEvent::Cancelled => r is None,
        },
{
    match event {
        CaptureEvent::Selection { x, y, w, h } => Some(
            crate::models::CaptureRect { x, y, width: w, height: h },
        ),
        CaptureEvent::Cancelled => None,
    }
}

// ── Pixel format ───────────────────────────────────────────────────────────

/// The window buffer's `0x00RRGGBB` pixel for the given channels.
pub open spec fn packed_pixel(r: u8, g: u8, b: u8) -> u32 {
    ((r as u32) * 65536 + (g as u32) * 256 + (b as u32)) as u32
}

/// The window-buffer pixels of RGBA bytes: one per whole group of four bytes, alpha dropped.
pub open spec fn packed_pixels(rgba: Seq<u8>) -> Seq<u32> {
    Seq::new(rgba.len() / 4, |i: int| packed_pixel(rgba[4 * i], rgba[4 * i + 1], rgba[4 * i + 2]))
}

/// Converts RGBA bytes to the window buffer's `0x00RRGGBB` pixels.
pub fn rgba_to_softbuffer(rgba: &[u8]) -> (out: Vec<u32>)
    ensures
        out@ == packed_pixels(rgba@),
{
    let n = rgba.len() / 4;
    let mut out: Vec<u32> = Vec::new();
    let mut i: usize = 0;
    while i < n
        invariant
            n == rgba@.len() / 4,
            rgba@.len() <= usize::MAX,
            i <= n,
            out@.len() == i,
            forall|j: int| 0 <= j < i ==> out@[j] == packed_pixel(
                rgba@[4 * j],
                rgba@[4 * j + 1],
                rgba@[4 * j + 2],
            ),
        decreases n - i,
    {
        assert(4 * i + 3 < rgba@.len()) by (nonlinear_arith)
            requires
                i < n,
                n == rgba@.len() / 4,
        ;
        let r = rgba[4 * i];
        let g = rgba[4 * i + 1];
        let b = rgba[4 * i + 2];
        let px = ((r as u32) << 16) | ((g as u32) << 8) | (b as u32);
        assert(px == (r as u32) * 65536 + (g as u32) * 256 + (b as u32)) by (bit_vector)
            requires
                px == ((r as u32) << 16) | ((g as u32) << 8) | (b as u32),
        ;
        out.push(px);
        i = i + 1;
    }
    assert(out@ =~= packed_pixels(rgba@));
    out
}

// ── Rectangle copy ─────────────────────────────────────────────────────────

/// `d` with `piece` written over it from index `at`.
pub open spec fn overwrite(d: Seq<u32>, at: int, piece: Seq<u32>) -> Seq<u32> {
    Seq::new(
        d.len(),
        |i: int|
            if at <= i < at + piece.len() {
                piece[i - at]
            } else {
                d[i]
            },
    )
}

/// `dst` after copying the first `rows` rows of a `w`-wide rectangle of `src` (read
/// from `(src_ox, src_oy)` with row stride `src_stride`) to `(dx, dy)` of a
/// `dst_w`-wide buffer; a row that does not fit in either buffer is skipped.
pub open spec fn blit_rows(
    dst: Seq<u32>,
    dst_w: int,
    src: Seq<u32>,
    src_stride: int,
    src_ox: int,
    src_oy: int,
    dx: int,
    dy: int,
    w: int,
    rows: int,
) -> Seq<u32>
    decreases rows,
{
    if rows <= 0 {
        dst
    } else {
        let prev = blit_rows(dst, dst_w, src, src_stride, src_ox, src_oy, dx, dy, w, rows - 1);
        let row = rows - 1;
        let dst_start = (dy + row) * dst_w + dx;
        let src_start = (src_oy + row) * src_stride + src_ox;
        if dst_start + w <= prev.len() && src_start + w <= src.len() {
            overwrite(prev, dst_start, src.subrange(src_start, src_start + w))
        } else {
            prev
        }
    }
}

/// Copying rows never changes the buffer's length.
pub proof fn lemma_blit_rows_len(
    dst: Seq<u32>,
    dst_w: int,
    src: Seq<u32>,
    src_stride: int,
    src_ox: int,
    src_oy: int,
    dx: int,
    dy: int,
    w: int,
    rows: int,
)
    ensures
        blit_rows(dst, dst_w, src, src_stride, src_ox, src_oy, dx, dy, w, rows).len() == dst.len(),
    decreases rows,
{
    if rows > 0 {
        lemma_blit_rows_len(dst, dst_w, src, src_stride, src_ox, src_oy, dx, dy, w, rows - 1);
    }
}

/// Copying rectangle rows that do not overlap in the destination (`w <= dst_w`): the
/// destination pixel `(dx + k, dy + r)` of a row `r` that fits in both buffers ends up
/// holding the source pixel `(src_ox + k, src_oy + r)`.
pub proof fn law_blit_copies_source_pixels(
    dst: Seq<u32>,
    dst_w: nat,
    src: Seq<u32>,
    src_stride: nat,
    src_ox: nat,
    src_oy: nat,
    dx: nat,
    dy: nat,
    w: nat,
    rows: nat,
    r: int,
    k: int,
)
    requires
        w <= dst_w,
        0 <= r < rows,
        0 <= k < w,
        (dy + r) * dst_w + dx + w <= dst.len(),
        (src_oy + r) * src_stride + src_ox + w <= src.len(),
    ensures
        blit_rows(
            dst,
            dst_w as int,
            src,
            src_stride as int,
            src_ox as int,
            src_oy as int,
            dx as int,
            dy as int,
            w as int,
            rows as int,
        )[(dy + r) * dst_w + dx + k] == src[(src_oy + r) * src_stride + src_ox + k],
    decreases rows,
{
    let last = rows - 1;
    lemma_blit_rows_len(
        dst,
        dst_w as int,
        src,
        src_stride as int,
        src_ox as int,
        src_oy as int,
        dx as int,
        dy as int,
        w as int,
        last,
    );
    if r < last {
        law_blit_copies_source_pixels(
            dst,
            dst_w,
            src,
            src_stride,
            src_ox,
            src_oy,
            dx,
            dy,
            w,
            (rows - 1) as nat,
            r,
            k,
        );
        assert((dy + last) * dst_w >= (dy + r + 1) * dst_w) by (nonlinear_arith)
            requires
                r < last,
        ;
        assert((dy + r + 1) * dst_w == (dy + r) * dst_w + dst_w) by (nonlinear_arith);
    }
}

proof fn lemma_wide_product(a: int, b: int)
    requires
        0 <= a < 0x2_0000_0000,
        0 <= b < 0x1_0000_0000,
    ensures
        0 <= a * b < 0x2_0000_0000_0000_0000,
{
    assert(0 <= a * b < 0x2_0000_0000 * 0x1_0000_0000) by (nonlinear_arith)
        requires
            0 <= a < 0x2_0000_0000,
            0 <= b < 0x1_0000_0000,
    ;
}

/// Copies a `w`×`h` rectangle of `src` (row stride `src_stride`, starting at
/// `(src_ox, src_oy)`) into `dst` (row stride `dst_w`) at `(dx, dy)`, row by row,
/// skipping rows that do not fit in either buffer.
pub fn blit_pixels(
    dst: &mut [u32],
    dst_w: u32,
    src: &[u32],
    src_stride: u32,
    src_ox: u32,
    src_oy: u32,
    dx: u32,
    dy: u32,
    w: u32,
    h: u32,
)
    ensures
        final(dst)@ == blit_rows(
            old(dst)@,
            dst_w as int,
            src@,
            src_stride as int,
            src_ox as int,
            src_oy as int,
            dx as int,
            dy as int,
            w as int,
            h as int,
        ),
{
    let dst_len = dst.len();
    let src_len = src.len();
    let mut row: u32 = 0;
    while row < h
        invariant
            row <= h,
            dst_len == dst@.len(),
            src_len == src@.len(),
            dst@ == blit_rows(
                old(dst)@,
                dst_w as int,
                src@,
                src_stride as int,
                src_ox as int,
                src_oy as int,
                dx as int,
                dy as int,
                w as int,
                row as int,
            ),
        decreases h - row,
    {
        proof {
            lemma_wide_product(dy + row, dst_w as int);
            lemma_wide_product(src_oy + row, src_stride as int);
        }
        let dst_start: u128 = (dy as u128 + row as u128) * (dst_w as u128) + dx as u128;
        let src_start: u128 = (src_oy as u128 + row as u128) * (src_stride as u128) + src_ox as u128;
        proof {
            lemma_blit_rows_len(
                old(dst)@,
                dst_w as int,
                src@,
                src_stride as int,
                src_ox as int,
                src_oy as int,
                dx as int,
                dy as int,
                w as int,
                row as int,
            );
        }
        if dst_start + (w as u128) <= dst_len as u128 && src_start + (w as u128) <= src_len as u128 {
            let ds = dst_start as usize;
            let ss = src_start as usize;
            let ghost before = dst@;
            let mut k: usize = 0;
            while k < w as usize
                invariant
                    ds + w <= dst@.len(),
                    ss + w <= src@.len(),
                    dst_len == dst@.len(),
                    src_len == src@.len(),
                    k <= w,
                    before.len() == dst@.len(),
                    dst@ == overwrite(before, ds as int, src@.subrange(ss as int, ss + k)),
                decreases w - k,
            {
                dst[ds + k] = src[ss + k];
                k = k + 1;
                assert(dst@ =~= overwrite(before, ds as int, src@.subrange(ss as int, ss + k)));
            }
        }
        row = row + 1;
    }
}

// ── Selection outline ──────────────────────────────────────────────────────

/// Index of pixel `(col, row)` in a buffer `bw` pixels wide.
pub open spec fn cell_index(row: int, bw: int, col: int) -> int {
    row * bw + col
}

/// The horizontal edges painted at inset `t` cover index `i` among columns `x..col_end`.
pub open spec fn hits_rows(i: int, bw: int, bh: int, x: int, col_end: int, top: int, bot: int) -> bool {
    exists|col: int|
        #![trigger cell_index(top, bw, col)]
        #![trigger cell_index(bot, bw, col)]
        x <= col < col_end && ((top < bh && i == cell_index(top, bw, col)) || (bot != top && bot
            < bh && i == cell_index(bot, bw, col)))
}

/// The vertical edges painted at inset `t` cover index `i` among rows `y..row_end`.
pub open spec fn hits_cols(
    i: int,
    bw: int,
    bh: int,
    y: int,
    row_end: int,
    left: int,
    right: int,
) -> bool {
    exists|row: int|
        #![trigger cell_index(row, bw, left)]
        #![trigger cell_index(row, bw, right)]
        y <= row < row_end && row < bh && (i == cell_index(row, bw, left) || (right != left && i
            == cell_index(row, bw, right)))
}

/// `a - b`, or 0 when that is negative.
pub open spec fn sat_sub(a: int, b: int) -> int {
    if a >= b {
        a - b
    } else {
        0
    }
}

/// Index `i` lies on the outline ring at inset `t` of the rectangle `(x, y, w, h)`,
/// clipped to a `bw`×`bh` buffer.
pub open spec fn on_ring(i: int, bw: int, bh: int, x: int, y: int, w: int, h: int, t: int) -> bool {
    let x2 = if x + w < bw {
        x + w
    } else {
        bw
    };
    let y2 = if y + h < bh {
        y + h
    } else {
        bh
    };
    let top = y + t;
    let bot = sat_sub(sat_sub(y2, 1), t);
    let left = x + t;
    let right = sat_sub(sat_sub(x2, 1), t);
    hits_rows(i, bw, bh, x, x2, top, bot) || hits_cols(i, bw, bh, y, y2, left, right)
}

/// Index `i` lies on one of the first `rings` outline rings.
pub open spec fn on_outline(i: int, bw: int, bh: int, x: int, y: int, w: int, h: int, rings: int) -> bool {
    exists|t: int| 0 <= t < rings && #[trigger] on_ring(i, bw, bh, x, y, w, h, t)
}

/// The buffer after drawing `thickness` rings of outline in `color`.
pub open spec fn outlined(
    buf: Seq<u32>,
    bw: int,
    bh: int,
    x: int,
    y: int,
    w: int,
    h: int,
    color: u32,
    thickness: int,
) -> Seq<u32> {
    Seq::new(
        buf.len(),
        |i: int|
            if on_outline(i, bw, bh, x, y, w, h, thickness) {
                color
            } else {
                buf[i]
            },
    )
}

proof fn lemma_index_fits(r: u64, bw: u64, c: u64)
    requires
        r < 0x1_0000_0000,
        bw < 0x1_0000_0000,
        c < 0x1_ffff_ffff,
    ensures
        r * bw + c < 0x1_0000_0000_0000_0000,
{
    assert(r * bw <= 0xffff_ffff * 0xffff_ffff) by (nonlinear_arith)
        requires
            r < 0x1_0000_0000,
            bw < 0x1_0000_0000,
    ;
}

/// Adding one column to the range of a horizontal edge.
proof fn lemma_hits_rows_extend(i: int, bw: int, bh: int, x: int, col: int, top: int, bot: int)
    requires
        x <= col,
    ensures
        hits_rows(i, bw, bh, x, col + 1, top, bot) == (hits_rows(i, bw, bh, x, col, top, bot) || (
        top < bh && i == cell_index(top, bw, col)) || (bot != top && bot < bh && i == cell_index(
            bot,
            bw,
            col,
        ))),
{
    if hits_rows(i, bw, bh, x, col + 1, top, bot) {
        let c = choose|c: int|
            #![trigger cell_index(top, bw, c)]
            #![trigger cell_index(bot, bw, c)]
            x <= c < col + 1 && ((top < bh && i == cell_index(top, bw, c)) || (bot
                != top && bot < bh && i == cell_index(bot, bw, c)));
        if c < col {
            assert(hits_rows(i, bw, bh, x, col, top, bot));
        }
    }
    if hits_rows(i, bw, bh, x, col, top, bot) {
        let c = choose|c: int|
            #![trigger cell_index(top, bw, c)]
            #![trigger cell_index(bot, bw, c)]
            x <= c < col && ((top < bh && i == cell_index(top, bw, c)) || (bot != top
                && bot < bh && i == cell_index(bot, bw, c)));
        assert(hits_rows(i, bw, bh, x, col + 1, top, bot));
    }
    if (top < bh && i == cell_index(top, bw, col)) || (bot != top && bot < bh && i == cell_index(
        bot,
        bw,
        col,
    )) {
        assert(hits_rows(i, bw, bh, x, col + 1, top, bot));
    }
}

/// Adding one row to the range of a vertical edge.
proof fn lemma_hits_cols_extend(
    i: int,
    bw: int,
    bh: int,
    y: int,
    row: int,
    left: int,
    right: int,
)
    requires
        y <= row,
    ensures
        hits_cols(i, bw, bh, y, row + 1, left, right) == (hits_cols(i, bw, bh, y, row, left, right)
            || (row < bh && (i == cell_index(row, bw, left) || (right != left && i == cell_index(
            row,
            bw,
            right,
        ))))),
{
    if hits_cols(i, bw, bh, y, row + 1, left, right) {
        let r = choose|r: int|
            #![trigger cell_index(r, bw, left)]
            #![trigger cell_index(r, bw, right)]
            y <= r < row + 1 && r < bh && (i == cell_index(r, bw, left) || (right
                != left && i == cell_index(r, bw, right)));
        if r < row {
            assert(hits_cols(i, bw, bh, y, row, left, right));
        }
    }
    if hits_cols(i, bw, bh, y, row, left, right) {
        let r = choose|r: int|
            #![trigger cell_index(r, bw, left)]
            #![trigger cell_index(r, bw, right)]
            y <= r < row && r < bh && (i == cell_index(r, bw, left) || (right != left
                && i == cell_index(r, bw, right)));
        assert(hits_cols(i, bw, bh, y, row + 1, left, right));
    }
    if row < bh && (i == cell_index(row, bw, left) || (right != left && i == cell_index(
        row,
        bw,
        right,
    ))) {
        assert(hits_cols(i, bw, bh, y, row + 1, left, right));
    }
}

/// Adding one ring to an outline.
proof fn lemma_on_outline_extend(i: int, bw: int, bh: int, x: int, y: int, w: int, h: int, t: int)
    requires
        0 <= t,
    ensures
        on_outline(i, bw, bh, x, y, w, h, t + 1) == (on_outline(i, bw, bh, x, y, w, h, t) || on_ring(
            i,
            bw,
            bh,
            x,
            y,
            w,
            h,
            t,
        )),
{
    if on_outline(i, bw, bh, x, y, w, h, t + 1) {
        let s = choose|s: int| 0 <= s < t + 1 && #[trigger] on_ring(i, bw, bh, x, y, w, h, s);
        if s < t {
            assert(on_outline(i, bw, bh, x, y, w, h, t));
        }
    }
    if on_outline(i, bw, bh, x, y, w, h, t) {
        let s = choose|s: int| 0 <= s < t && #[trigger] on_ring(i, bw, bh, x, y, w, h, s);
        assert(on_outline(i, bw, bh, x, y, w, h, t + 1));
    }
    if on_ring(i, bw, bh, x, y, w, h, t) {
        assert(on_outline(i, bw, bh, x, y, w, h, t + 1));
    }
}

/// Paints the pixel at `(col, row)` when it lies inside the buffer.
fn paint_cell(buf: &mut [u32], buf_h: u64, bw: u64, row: u64, col: u64, color: u32)
    requires
        bw < 0x1_0000_0000,
        buf_h < 0x1_0000_0000,
        col < 0x1_ffff_ffff,
    ensures
        final(buf)@.len() == old(buf)@.len(),
        forall|i: int|
            0 <= i < old(buf)@.len() ==> final(buf)@[i] == if row < buf_h && i == cell_index(
                row as int,
                bw as int,
                col as int,
            ) {
                color
            } else {
                old(buf)@[i]
            },
{
    if row < buf_h {
        proof {
            lemma_index_fits(row, bw, col);
        }
        let i: u64 = row * bw + col;
        if i < buf.len() as u64 {
            buf[i as usize] = color;
        }
    }
}

/// Paints the horizontal edges of one ring: rows `top` and `bot` over columns `x..x2`.
fn paint_horizontal(buf: &mut [u32], bh: u64, bw: u64, x: u64, x2: u64, top: u64, bot: u64, color: u32)
    requires
        bw < 0x1_0000_0000,
        bh < 0x1_0000_0000,
        x2 <= bw,
    ensures
        final(buf)@.len() == old(buf)@.len(),
        forall|i: int|
            0 <= i < old(buf)@.len() ==> final(buf)@[i] == if hits_rows(
                i,
                bw as int,
                bh as int,
                x as int,
                x2 as int,
                top as int,
                bot as int,
            ) {
                color
            } else {
                old(buf)@[i]
            },
{
    let ghost orig = buf@;
    let mut col: u64 = x;
    while col < x2
        invariant
            x <= col,
            x <= x2 ==> col <= x2,
            x2 < x ==> col == x,
            x2 <= bw < 0x1_0000_0000,
            bh < 0x1_0000_0000,
            buf@.len() == orig.len(),
            forall|i: int|
                0 <= i < orig.len() ==> buf@[i] == if hits_rows(
                    i,
                    bw as int,
                    bh as int,
                    x as int,
                    col as int,
                    top as int,
                    bot as int,
                ) {
                    color
                } else {
                    orig[i]
                },
        decreases x2 - col,
    {
        paint_cell(buf, bh, bw, top, col, color);
        if bot != top {
            paint_cell(buf, bh, bw, bot, col, color);
        }
        proof {
            assert forall|i: int| 0 <= i < orig.len() implies buf@[i] == if hits_rows(
                i,
                bw as int,
                bh as int,
                x as int,
                col + 1,
                top as int,
                bot as int,
            ) {
                color
            } else {
                orig[i]
            } by {
                lemma_hits_rows_extend(
                    i,
                    bw as int,
                    bh as int,
                    x as int,
                    col as int,
                    top as int,
                    bot as int,
                );
            }
        }
        col = col + 1;
    }
    proof {
        if x2 < x {
            assert forall|i: int| 0 <= i < orig.len() implies buf@[i] == if hits_rows(
                i,
                bw as int,
                bh as int,
                x as int,
                x2 as int,
                top as int,
                bot as int,
            ) {
                color
            } else {
                orig[i]
            } by {
                assert(!hits_rows(
                    i,
                    bw as int,
                    bh as int,
                    x as int,
                    x2 as int,
                    top as int,
                    bot as int,
                ));
                assert(!hits_rows(
                    i,
                    bw as int,
                    bh as int,
                    x as int,
                    x as int,
                    top as int,
                    bot as int,
                ));
            }
        }
    }
}

/// Paints the vertical edges of one ring: columns `left` and `right` over rows `y..y2`.
fn paint_vertical(
    buf: &mut [u32],
    bh: u64,
    bw: u64,
    y: u64,
    y2: u64,
    left: u64,
    right: u64,
    color: u32,
)
    requires
        bw < 0x1_0000_0000,
        bh < 0x1_0000_0000,
        left < 0x1_ffff_ffff,
        right < 0x1_ffff_ffff,
    ensures
        final(buf)@.len() == old(buf)@.len(),
        forall|i: int|
            0 <= i < old(buf)@.len() ==> final(buf)@[i] == if hits_cols(
                i,
                bw as int,
                bh as int,
                y as int,
                y2 as int,
                left as int,
                right as int,
            ) {
                color
            } else {
                old(buf)@[i]
            },
{
    let ghost orig = buf@;
    let mut row: u64 = y;
    while row < y2
        invariant
            y <= row,
            y <= y2 ==> row <= y2,
            y2 < y ==> row == y,
            bw < 0x1_0000_0000,
            bh < 0x1_0000_0000,
            left < 0x1_ffff_ffff,
            right < 0x1_ffff_ffff,
            buf@.len() == orig.len(),
            forall|i: int|
                0 <= i < orig.len() ==> buf@[i] == if hits_cols(
                    i,
                    bw as int,
                    bh as int,
                    y as int,
                    row as int,
                    left as int,
                    right as int,
                ) {
                    color
                } else {
                    orig[i]
                },
        decreases y2 - row,
    {
        paint_cell(buf, bh, bw, row, left, color);
        if right != left {
            paint_cell(buf, bh, bw, row, right, color);
        }
        proof {
            assert forall|i: int| 0 <= i < orig.len() implies buf@[i] == if hits_cols(
                i,
                bw as int,
                bh as int,
                y as int,
                row + 1,
                left as int,
                right as int,
            ) {
                color
            } else {
                orig[i]
            } by {
                lemma_hits_cols_extend(
                    i,
                    bw as int,
                    bh as int,
                    y as int,
                    row as int,
                    left as int,
                    right as int,
                );
            }
        }
        row = row + 1;
    }
    proof {
        if y2 < y {
            assert forall|i: int| 0 <= i < orig.len() implies buf@[i] == if hits_cols(
                i,
                bw as int,
                bh as int,
                y as int,
                y2 as int,
                left as int,
                right as int,
            ) {
                color
            } else {
                orig[i]
            } by {
                assert(!hits_cols(
                    i,
                    bw as int,
                    bh as int,
                    y as int,
                    y2 as int,
                    left as int,
                    right as int,
                ));
            }
        }
    }
}

/// Draws a `thickness`-pixel outline of the rectangle `(x, y, w, h)` in `color` onto a
/// `buf_w`×`buf_h` buffer, clipped to the buffer.
pub fn draw_border(
    buf: &mut [u32],
    buf_w: u32,
    buf_h: u32,
    x: u32,
    y: u32,
    w: u32,
    h: u32,
    color: u32,
    thickness: u32,
)
    ensures
        final(buf)@ == outlined(
            old(buf)@,
            buf_w as int,
            buf_h as int,
            x as int,
            y as int,
            w as int,
            h as int,
            color,
            thickness as int,
        ),
{
    let ghost orig = buf@;
    let bw: u64 = buf_w as u64;
    let bh: u64 = buf_h as u64;
    let x2: u64 = if (x as u64) + (w as u64) < bw {
        (x as u64) + (w as u64)
    } else {
        bw
    };
    let y2: u64 = if (y as u64) + (h as u64) < bh {
        (y as u64) + (h as u64)
    } else {
        bh
    };
    let mut t: u32 = 0;
    while t < thickness
        invariant
            t <= thickness,
            buf@.len() == orig.len(),
            bw == buf_w,
            bh == buf_h,
            x2 == (if x + w < buf_w {
                x + w
            } else {
                buf_w as int
            }),
            y2 == (if y + h < buf_h {
                y + h
            } else {
                buf_h as int
            }),
            forall|i: int|
                0 <= i < orig.len() ==> buf@[i] == if on_outline(
                    i,
                    buf_w as int,
                    buf_h as int,
                    x as int,
                    y as int,
                    w as int,
                    h as int,
                    t as int,
                ) {
                    color
                } else {
                    orig[i]
                },
        decreases thickness - t,
    {
        let top: u64 = (y as u64) + (t as u64);
        let bot: u64 = if y2 >= 1 && y2 - 1 >= t as u64 {
            y2 - 1 - t as u64
        } else {
            0
        };
        let left: u64 = (x as u64) + (t as u64);
        let right: u64 = if x2 >= 1 && x2 - 1 >= t as u64 {
            x2 - 1 - t as u64
        } else {
            0
        };
        let ghost before = buf@;
        paint_horizontal(buf, bh, bw, x as u64, x2, top, bot, color);
        paint_vertical(buf, bh, bw, y as u64, y2, left, right, color);
        proof {
            assert forall|i: int| 0 <= i < orig.len() implies buf@[i] == if on_outline(
                i,
                buf_w as int,
                buf_h as int,
                x as int,
                y as int,
                w as int,
                h as int,
                t + 1,
            ) {
                color
            } else {
                orig[i]
            } by {
                lemma_on_outline_extend(
                    i,
                    buf_w as int,
                    buf_h as int,
                    x as int,
                    y as int,
                    w as int,
                    h as int,
                    t as int,
                );
            }
        }
        t = t + 1;
    }
    assert(buf@ =~= outlined(
        orig,
        buf_w as int,
        buf_h as int,
        x as int,
        y as int,
        w as int,
        h as int,
        color,
        thickness as int,
    ));
}

// ── Cropping ───────────────────────────────────────────────────────────────

/// The RGBA bytes of the first `rows` rows of the `w`-wide region at `(x, y)` of an
/// image `img_w` pixels wide, row after row; a row that does not fit is left out.
pub open spec fn crop_rows(rgba: Seq<u8>, img_w: int, x: int, y: int, w: int, rows: int) -> Seq<u8>
    decreases rows,
{
    if rows <= 0 {
        seq![]
    } else {
        let prev = crop_rows(rgba, img_w, x, y, w, rows - 1);
        let start = ((y + rows - 1) * img_w + x) * 4;
        let end = start + w * 4;
        if end <= rgba.len() {
            prev + rgba.subrange(start, end)
        } else {
            prev
        }
    }
}

/// Cropping a region that lies inside the image gives the same bytes as the image
/// crate's crop: the region's pixels, row after row.
pub proof fn law_crop_matches_image_crop(
    rgba: Seq<u8>,
    img_w: nat,
    x: nat,
    y: nat,
    w: nat,
    h: nat,
)
    requires
        x + w <= img_w,
        (y + h) * img_w * 4 <= rgba.len(),
    ensures
        crop_rows(rgba, img_w as int, x as int, y as int, w as int, h as int) == crop_pixels(
            rgba,
            img_w as int,
            x as int,
            y as int,
            w as int,
            h as int,
        ),
    decreases h,
{
    let iw = img_w as int;
    let (xi, yi, wi, hi) = (x as int, y as int, w as int, h as int);
    if h == 0 {
        assert(wi * 0 * 4 == 0) by (nonlinear_arith);
        assert(crop_pixels(rgba, iw, xi, yi, wi, 0) =~= seq![]);
    } else {
        let r = hi - 1;
        assert((y + r) * img_w * 4 <= (y + h) * img_w * 4) by (nonlinear_arith)
            requires
                r == h - 1,
                h >= 1,
        ;
        law_crop_matches_image_crop(rgba, img_w, x, y, w, (h - 1) as nat);
        let start = ((yi + r) * iw + xi) * 4;
        assert(start + wi * 4 <= (yi + hi) * iw * 4) by (nonlinear_arith)
            requires
                start == ((yi + r) * iw + xi) * 4,
                r == hi - 1,
                xi + wi <= iw,
        ;
        let prev = crop_pixels(rgba, iw, xi, yi, wi, r);
        let whole = crop_pixels(rgba, iw, xi, yi, wi, hi);
        let piece = rgba.subrange(start, start + wi * 4);
        assert(0 <= r * wi * 4) by (nonlinear_arith)
            requires
                r >= 0,
                wi >= 0,
        ;
        assert(hi * wi * 4 == r * wi * 4 + wi * 4) by (nonlinear_arith)
            requires
                r == hi - 1,
        ;
        assert(r * wi * 4 == r * (wi * 4)) by (nonlinear_arith);
        assert(whole.len() == hi * wi * 4);
        assert forall|i: int| 0 <= i < whole.len() implies whole[i] == (prev + piece)[i] by {
            if wi > 0 {
                if i < r * wi * 4 {
                    assert(whole[i] == prev[i]);
                } else {
                    let k = i - r * wi * 4;
                    lemma_fundamental_div_mod_converse(i, wi * 4, r, k);
                    assert(whole[i] == rgba[((yi + r) * iw + xi) * 4 + k]);
                    assert((prev + piece)[i] == piece[k]);
                }
            }
        }
        assert(whole =~= prev + piece);
    }
}

/// Copies the `w`×`h` region at `(x, y)` out of an RGBA image `img_w` pixels wide.
pub fn crop_rgba(rgba: &[u8], img_w: u32, x: u32, y: u32, w: u32, h: u32) -> (out: Vec<u8>)
    ensures
        out@ == crop_rows(rgba@, img_w as int, x as int, y as int, w as int, h as int),
{
    let len = rgba.len();
    let mut out: Vec<u8> = Vec::new();
    let mut row: u32 = 0;
    while row < h
        invariant
            row <= h,
            len == rgba@.len(),
            out@ == crop_rows(rgba@, img_w as int, x as int, y as int, w as int, row as int),
        decreases h - row,
    {
        proof {
            lemma_wide_product(y + row, img_w as int);
        }
        let start: u128 = ((y as u128 + row as u128) * (img_w as u128) + x as u128) * 4;
        let end: u128 = start + (w as u128) * 4;
        if end <= len as u128 {
            let s = start as usize;
            let e = end as usize;
            let ghost before = out@;
            let mut k: usize = s;
            while k < e
                invariant
                    s <= k <= e,
                    e <= rgba@.len(),
                    out@ == before + rgba@.subrange(s as int, k as int),
                decreases e - k,
            {
                out.push(rgba[k]);
                k = k + 1;
                assert(out@ =~= before + rgba@.subrange(s as int, k as int));
            }
        }
        row = row + 1;
    }
    out
}

// ── PNG encoding ───────────────────────────────────────────────────────────

/// What `encode_png` gives for a `w`×`h` RGBA image held in `rgba`.
pub open spec fn png_outcome(rgba: Seq<u8>, w: u32, h: u32) -> Result<Seq<u8>, ErrorView> {
    if !holds_rgba(rgba, w, h) {
        Err(ErrorView::Capture("invalid RGBA dimensions for PNG"@))
    } else {
        match png_encoding(rgba, w, h) {
            Ok(b) => Ok(b),
            Err(m) => Err(ErrorView::Capture("PNG encode error: "@ + m)),
        }
    }
}

/// Encodes a `w`×`h` RGBA image as PNG; refuses a buffer too short for the image.
pub fn encode_png(rgba: &[u8], w: u32, h: u32) -> (r: AppResult<Vec<u8>>)
    ensures
        result_view(r) matches Ok(b) ==> png_outcome(rgba@, w, h) == Ok::<_, ErrorView>(b@),
        result_view(r) matches Err(e) ==> png_outcome(rgba@, w, h) == Err::<Seq<u8>, _>(e),
{
    proof {
        lemma_wide_product(w as int, h as int);
    }
    let needed: u128 = (w as u128) * (h as u128) * 4;
    if needed > rgba.len() as u128 {
        return Err(AppError::Capture("invalid RGBA dimensions for PNG".to_owned()));
    }
    match png_encode(rgba, w, h) {
        Ok(b) => Ok(b),
        Err(m) => {
            let mut msg = "PNG encode error: ".to_owned();
            msg.append(m.as_str());
            Err(AppError::Capture(msg))
        },
    }
}

} // verus!
