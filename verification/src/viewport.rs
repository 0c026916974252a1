use vstd::prelude::*;

use crate::editor::Editor;
use crate::terminal::{min_int, sat_sub};

verus! {

/// The part of the document on screen.
#[derive(Clone, Copy)]
pub struct Viewport {
    pub top_line: usize,
    pub left_col: usize,
    /// The top line before the user's own scrolling is applied.
    pub pre_scroll_top_line: usize,
    /// Lines scrolled by the user since the last adjustment.
    pub vertical_offset: isize,
}

impl Viewport {
    /// A viewport with `open_at_line` in its middle.
    pub open spec fn initial(editor_lines: u16, open_at_line: usize) -> Viewport {
        let top = if open_at_line >= editor_lines / 2 { (open_at_line - editor_lines / 2) as usize } else { 0usize };
        Viewport { top_line: top, left_col: 0, pre_scroll_top_line: top, vertical_offset: 0 }
    }

    pub fn new(editor_lines: u16, open_at_line: usize) -> (v: Self)
        ensures
            v == Viewport::initial(editor_lines, open_at_line),
    {
        let half: usize = (editor_lines / 2) as usize;
        let top = open_at_line.saturating_sub(half);
        Viewport { top_line: top, left_col: 0, pre_scroll_top_line: top, vertical_offset: 0 }
    }
}


/// The columns available to text: the terminal's width less the line-number gutter.
pub open spec fn text_width(e: Editor) -> int {
    if e.config.show_line_numbers { e.ui.term_width - 7 } else { e.ui.term_width as int }
}

/// Line `y` is on screen in viewport `vp` of `n` lines.
pub open spec fn shows_line(vp: Viewport, n: int, y: int) -> bool {
    vp.top_line <= y < vp.top_line + n
}

pub open spec fn cursor_moved(e: Editor) -> bool {
    e.cursor.cur_y != e.cursor.past_y || e.cursor.cur_x != e.cursor.past_x
}

/// First step: when the cursor moved off screen, center on it and drop the
/// user's scrolling; when it is on screen, make the user's scrolling part of
/// the anchor. Gives the anchor line, the remaining scroll, and whether a full
/// redraw is due.
pub open spec fn anchor_step(n: int, y: int, visible: bool, moved: bool, pst: int, off: int) -> (int, int, bool) {
    if moved && !visible {
        (sat_sub(y, n / 2), 0, true)
    } else if off != 0 && visible {
        (if off >= 0 { pst + off } else { sat_sub(pst, -off) }, 0, true)
    } else {
        (pst, off, false)
    }
}

/// Second step: scroll when the cursor, moving up or down, crosses the
/// margins of `margin` lines, without scrolling past the lines below.
pub open spec fn scroll_step(y: int, past_y: int, pst: int, margin: int, n: int, below: int) -> (int, bool) {
    let top_limit = pst + margin;
    let bottom_limit = pst + n - margin;
    if y < top_limit && y < past_y {
        (sat_sub(pst, sat_sub(top_limit, y)), true)
    } else if y > bottom_limit && y > past_y && below > 0 {
        (pst + min_int(below, sat_sub(y, bottom_limit)), true)
    } else {
        (pst, false)
    }
}

/// The top line shown: the anchor moved by the remaining scroll, kept
/// between zero and the number of document lines.
pub open spec fn top_line_step(pst: int, off: int, doc_lines: int) -> int {
    let t = pst + off;
    min_int(doc_lines, if t >= 0 { t } else { 0 })
}

/// Third step: scroll sideways when the cursor, moving left or right,
/// crosses the margins of `margin` columns, without scrolling past the
/// `beyond` characters right of the screen.
pub open spec fn shift_step(x: int, past_x: int, lc: int, margin: int, width: int, beyond: int) -> (int, bool) {
    let left_limit = lc + margin;
    let right_limit = lc + width - margin;
    if x < left_limit && x < past_x {
        (sat_sub(lc, sat_sub(left_limit, x)), true)
    } else if x > right_limit && x > past_x && beyond > 0 {
        (lc + min_int(beyond, sat_sub(x, right_limit)), true)
    } else {
        (lc, false)
    }
}

pub open spec fn anchored(e: Editor) -> (int, int, bool) {
    anchor_step(
        e.ui.editor_lines as int,
        e.cursor.cur_y as int,
        shows_line(e.viewport, e.ui.editor_lines as int, e.cursor.cur_y as int),
        cursor_moved(e),
        e.viewport.pre_scroll_top_line as int,
        e.viewport.vertical_offset as int,
    )
}

/// Lines of the document below the (old) viewport.
pub open spec fn lines_below(e: Editor) -> int {
    sat_sub(e.document.line_count() as int, e.viewport.top_line + e.ui.editor_lines - 1)
}

pub open spec fn scrolled(e: Editor) -> (int, bool) {
    scroll_step(
        e.cursor.cur_y as int,
        e.cursor.past_y as int,
        anchored(e).0,
        e.config.vertical_margin as int,
        e.ui.editor_lines as int,
        lines_below(e),
    )
}

/// Characters of the cursor's line (plus one for a cursor at its end) that
/// lie right of the viewport.
pub open spec fn chars_beyond(e: Editor) -> int {
    let x = e.cursor.cur_x as int;
    match e.document.line_len(e.cursor.cur_y as int) {
        Some(len) => sat_sub(len + (if x == len { 1int } else { 0int }), e.viewport.left_col + text_width(e)),
        None => 0,
    }
}

pub open spec fn shifted(e: Editor) -> (int, bool) {
    shift_step(
        e.cursor.cur_x as int,
        e.cursor.past_x as int,
        e.viewport.left_col as int,
        e.config.horizontal_margin as int,
        text_width(e),
        chars_beyond(e),
    )
}

pub open spec fn adjusted_viewport(e: Editor) -> Viewport {
    Viewport {
        top_line: top_line_step(scrolled(e).0, anchored(e).1, e.document.line_count() as int) as usize,
        left_col: shifted(e).0 as usize,
        pre_scroll_top_line: scrolled(e).0 as usize,
        vertical_offset: anchored(e).1 as isize,
    }
}

pub open spec fn adjustment_redraws(e: Editor) -> bool {
    anchored(e).2 || scrolled(e).1 || anchored(e).1 != 0 || shifted(e).1
}

/// The inputs on which the adjustment stays within machine integers
/// (elsewhere it would overflow).
pub open spec fn viewport_adjustable(e: Editor) -> bool {
    let n = e.ui.editor_lines as int;
    let pst = e.viewport.pre_scroll_top_line as int;
    let off = e.viewport.vertical_offset as int;
    let lc = e.viewport.left_col as int;
    let hm = e.config.horizontal_margin as int;
    &&& e.config.show_line_numbers ==> e.ui.term_width >= 7
    &&& off != isize::MIN
    &&& pst + off <= usize::MAX
    &&& anchored(e).0 + e.config.vertical_margin <= usize::MAX
    &&& anchored(e).0 + n <= usize::MAX
    &&& anchored(e).0 + n >= e.config.vertical_margin
    &&& e.viewport.top_line + n <= usize::MAX
    &&& e.viewport.top_line + n >= 1
    &&& scrolled(e).0 <= isize::MAX
    &&& isize::MIN <= scrolled(e).0 + anchored(e).1 <= isize::MAX
    &&& lc + hm <= usize::MAX
    &&& lc + text_width(e) <= usize::MAX
    &&& lc + text_width(e) >= hm
    &&& (e.document.line_len(e.cursor.cur_y as int) matches Some(len) ==> len < usize::MAX)
    &&& shifted(e).0 <= usize::MAX
}

fn anchor(n: usize, y: usize, visible: bool, moved: bool, pst: usize, off: isize) -> (r: (usize, isize, bool))
    requires
        off != isize::MIN,
        pst + off <= usize::MAX,
    ensures
        (r.0 as int, r.1 as int, r.2) == anchor_step(n as int, y as int, visible, moved, pst as int, off as int),
{
    if moved && !visible {
        (y.saturating_sub(n / 2), 0, true)
    } else if off != 0 && visible {
        if off >= 0 {
            (pst + off as usize, 0, true)
        } else {
            let back = (-off) as usize;
            (pst.saturating_sub(back), 0, true)
        }
    } else {
        (pst, off, false)
    }
}

fn scroll(y: usize, past_y: usize, pst: usize, margin: usize, n: usize, below: usize) -> (r: (usize, bool))
    requires
        pst + margin <= usize::MAX,
        pst + n <= usize::MAX,
        pst + n >= margin,
        scroll_step(y as int, past_y as int, pst as int, margin as int, n as int, below as int).0 <= usize::MAX,
    ensures
        (r.0 as int, r.1) == scroll_step(y as int, past_y as int, pst as int, margin as int, n as int, below as int),
{
    let top_limit = pst + margin;
    let bottom_limit = pst + n - margin;
    if y < top_limit && y < past_y {
        (pst.saturating_sub(top_limit.saturating_sub(y)), true)
    } else if y > bottom_limit && y > past_y && below > 0 {
        let wanted = y.saturating_sub(bottom_limit);
        let step = if below <= wanted { below } else { wanted };
        (pst + step, true)
    } else {
        (pst, false)
    }
}

fn top_line(pst: usize, off: isize, doc_lines: usize) -> (t: usize)
    requires
        pst <= isize::MAX,
        isize::MIN <= pst + off <= isize::MAX,
    ensures
        t == top_line_step(pst as int, off as int, doc_lines as int),
{
    let shifted = (pst as isize) + off;
    let clamped: usize = if shifted >= 0 { shifted as usize } else { 0 };
    if doc_lines <= clamped { doc_lines } else { clamped }
}

fn shift(x: usize, past_x: usize, lc: usize, margin: usize, width: usize, beyond: usize) -> (r: (usize, bool))
    requires
        lc + margin <= usize::MAX,
        lc + width <= usize::MAX,
        lc + width >= margin,
        shift_step(x as int, past_x as int, lc as int, margin as int, width as int, beyond as int).0 <= usize::MAX,
    ensures
        (r.0 as int, r.1) == shift_step(x as int, past_x as int, lc as int, margin as int, width as int, beyond as int),
{
    let left_limit = lc + margin;
    let right_limit = lc + width - margin;
    if x < left_limit && x < past_x {
        (lc.saturating_sub(left_limit.saturating_sub(x)), true)
    } else if x > right_limit && x > past_x && beyond > 0 {
        let wanted = x.saturating_sub(right_limit);
        let step = if beyond <= wanted { beyond } else { wanted };
        (lc + step, true)
    } else {
        (lc, false)
    }
}

impl Editor {
    /// Line `y` is on screen.
    pub fn viewport_contains_y(&self, y: usize) -> (b: bool)
        requires
            self.viewport.top_line + self.ui.editor_lines <= usize::MAX,
        ensures
            b == shows_line(self.viewport, self.ui.editor_lines as int, y as int),
    {
        self.viewport.top_line <= y && y < self.viewport.top_line + self.ui.editor_lines as usize
    }

    /// Scrolls the viewport after the cursor moved so that the cursor stays
    /// visible, keeping margins to the edges of the screen.
    pub fn adjust_viewport(&mut self)
        requires
            viewport_adjustable(*old(self)),
        ensures
            final(self).viewport == adjusted_viewport(*old(self)),
            final(self).needs_full_rerender == (old(self).needs_full_rerender || adjustment_redraws(*old(self))),
            final(self).cursor == old(self).cursor,
            final(self).document == old(self).document,
            final(self).config == old(self).config,
            final(self).ui == old(self).ui,
            final(self).mode == old(self).mode,
            final(self).status_bar == old(self).status_bar,
    {
        let n_lines = self.ui.editor_lines as usize;
        let mut text_width = self.ui.term_width as usize;
        if self.config.show_line_numbers {
            text_width -= 7;
        }
        let y = self.cursor.cur_y;
        let x = self.cursor.cur_x;
        let visible = self.viewport_contains_y(y);
        let moved = y != self.cursor.past_y || x != self.cursor.past_x;
        let (pst, off, anchor_redraw) = anchor(
            n_lines, y, visible, moved, self.viewport.pre_scroll_top_line, self.viewport.vertical_offset);

        let below = self.document.n_lines().saturating_sub(self.viewport.top_line + n_lines - 1);
        let (pst, scroll_redraw) = scroll(
            y, self.cursor.past_y, pst, self.config.vertical_margin as usize, n_lines, below);

        let top = top_line(pst, off, self.document.n_lines());

        let beyond = match self.document.get_line_len(y) {
            Some(n_chars) => {
                let at_end: usize = if x == n_chars { 1 } else { 0 };
                (n_chars + at_end).saturating_sub(self.viewport.left_col + text_width)
            },
            None => 0,
        };
        let (left_col, shift_redraw) = shift(
            x, self.cursor.past_x, self.viewport.left_col, self.config.horizontal_margin as usize,
            text_width, beyond);

        if anchor_redraw || scroll_redraw || off != 0 || shift_redraw {
            self.needs_full_rerender = true;
        }
        self.viewport = Viewport { top_line: top, left_col, pre_scroll_top_line: pst, vertical_offset: off };
    }
}


/// The adjusted viewport never starts below the end of the document.
pub proof fn lemma_top_line_within_document(e: Editor)
    requires
        viewport_adjustable(e),
    ensures
        adjusted_viewport(e).top_line <= e.document.line_count(),
{
}

/// When the cursor moves to a line off screen (but within the document),
/// the adjusted viewport shows that line, provided the margins take at most
/// half of a non-empty screen.
pub proof fn lemma_follows_cursor_off_screen(e: Editor)
    requires
        viewport_adjustable(e),
        cursor_moved(e),
        !shows_line(e.viewport, e.ui.editor_lines as int, e.cursor.cur_y as int),
        e.ui.editor_lines >= 1,
        2 * e.config.vertical_margin <= e.ui.editor_lines,
        e.cursor.cur_y <= e.document.line_count(),
    ensures
        shows_line(adjusted_viewport(e), e.ui.editor_lines as int, e.cursor.cur_y as int),
{
    let n = e.ui.editor_lines as int;
    let y = e.cursor.cur_y as int;
    assert(n / 2 <= n - n / 2);
    assert(scrolled(e).0 == anchored(e).0);
}

/// Scrolling by the user is used up by the adjustment, unless the cursor is
/// off screen and stayed where it was.
pub proof fn lemma_user_scroll_consumed(e: Editor)
    requires
        viewport_adjustable(e),
        shows_line(e.viewport, e.ui.editor_lines as int, e.cursor.cur_y as int) || cursor_moved(e),
    ensures
        adjusted_viewport(e).vertical_offset == 0,
{
}

impl Editor {
    /// Whether `adjust_viewport` can run now: its arithmetic stays within
    /// machine integers (elsewhere it would overflow).
    pub fn can_adjust_viewport(&self) -> (b: bool)
        ensures
            b == viewport_adjustable(*self),
    {
        let n = self.ui.editor_lines as usize;
        let vm = self.config.vertical_margin as usize;
        let hm = self.config.horizontal_margin as usize;
        let tw = self.ui.term_width as usize;
        if self.config.show_line_numbers && tw < 7 {
            return false;
        }
        let width = if self.config.show_line_numbers { tw - 7 } else { tw };
        let off = self.viewport.vertical_offset;
        let pst = self.viewport.pre_scroll_top_line;
        if off == isize::MIN {
            return false;
        }
        if off > 0 && pst > usize::MAX - (off as usize) {
            return false;
        }
        let top = self.viewport.top_line;
        if top > usize::MAX - n || top + n < 1 {
            return false;
        }
        let y = self.cursor.cur_y;
        let x = self.cursor.cur_x;
        let visible = self.viewport_contains_y(y);
        let moved = y != self.cursor.past_y || x != self.cursor.past_x;
        let (a, rem, _) = anchor(n, y, visible, moved, pst, off);
        if a > usize::MAX - vm || a > usize::MAX - n || a + n < vm {
            return false;
        }
        let below = self.document.n_lines().saturating_sub(top + n - 1);
        let top_limit = a + vm;
        let bottom_limit = a + n - vm;
        let scrolled: usize = if y < top_limit && y < self.cursor.past_y {
            a.saturating_sub(top_limit.saturating_sub(y))
        } else if y > bottom_limit && y > self.cursor.past_y && below > 0 {
            let wanted = y.saturating_sub(bottom_limit);
            let step = if below <= wanted { below } else { wanted };
            if a > usize::MAX - step {
                return false;
            }
            a + step
        } else {
            a
        };
        if scrolled > isize::MAX as usize {
            return false;
        }
        if rem > 0 && scrolled > (isize::MAX - rem) as usize {
            return false;
        }
        let lc = self.viewport.left_col;
        if lc > usize::MAX - hm || lc > usize::MAX - width || lc + width < hm {
            return false;
        }
        let beyond: usize = match self.document.get_line_len(y) {
            Some(len) => {
                if len == usize::MAX {
                    return false;
                }
                let at_end: usize = if x == len { 1 } else { 0 };
                (len + at_end).saturating_sub(lc + width)
            },
            None => 0,
        };
        let left_limit = lc + hm;
        let right_limit = lc + width - hm;
        if x < left_limit && x < self.cursor.past_x {
            true
        } else if x > right_limit && x > self.cursor.past_x && beyond > 0 {
            let wanted = x.saturating_sub(right_limit);
            let step = if beyond <= wanted { beyond } else { wanted };
            lc <= usize::MAX - step
        } else {
            true
        }
    }
}

/// While the cursor is on screen, the lines the user scrolled are taken up
/// in either direction: the anchor moves by the scroll (down for a positive
/// one, up for a negative one, not above the first line), and when the
/// cursor stayed on its line the view then starts there, within the
/// document.
pub proof fn lemma_user_scroll_applied(e: Editor)
    requires
        shows_line(e.viewport, e.ui.editor_lines as int, e.cursor.cur_y as int),
        e.viewport.vertical_offset != 0,
    ensures
        ({
            let t = e.viewport.pre_scroll_top_line + e.viewport.vertical_offset;
            let want = if t >= 0 { t } else { 0 };
            &&& anchored(e).0 == want
            &&& anchored(e).1 == 0
            &&& (viewport_adjustable(e) && e.cursor.cur_y == e.cursor.past_y ==> {
                &&& adjusted_viewport(e).pre_scroll_top_line == want
                &&& adjusted_viewport(e).top_line == min_int(e.document.line_count() as int, want)
                &&& adjusted_viewport(e).vertical_offset == 0
            })
        }),
{
}

/// Scrolling keeps `margin` lines between the cursor and the edges of a
/// screen of `n` lines: a cursor that moved up into the top margin ends up
/// `margin` lines below the top (or the view starts at the first line); one
/// that moved down into the bottom margin, with lines enough below, ends up
/// `margin` lines above the bottom; a cursor between the margins leaves the
/// view where it is.
pub proof fn lemma_scroll_keeps_margins(y: int, past_y: int, pst: int, margin: int, n: int, below: int)
    requires
        0 <= y,
        0 <= pst,
        0 <= margin,
    ensures
        y < pst + margin && y < past_y ==> scroll_step(y, past_y, pst, margin, n, below).0
            == (if y >= margin { y - margin } else { 0 }),
        y > pst + n - margin && y > past_y && below >= y - (pst + n - margin) ==>
            scroll_step(y, past_y, pst, margin, n, below).0 + n - margin == y,
        pst + margin <= y <= pst + n - margin ==> scroll_step(y, past_y, pst, margin, n, below).0 == pst,
{
}

/// Sideways scrolling keeps `margin` columns between the cursor and the
/// edges of a screen `width` columns wide, in the same way.
pub proof fn lemma_shift_keeps_margins(x: int, past_x: int, lc: int, margin: int, width: int, beyond: int)
    requires
        0 <= x,
        0 <= lc,
        0 <= margin,
    ensures
        x < lc + margin && x < past_x ==> shift_step(x, past_x, lc, margin, width, beyond).0
            == (if x >= margin { x - margin } else { 0 }),
        x > lc + width - margin && x > past_x && beyond >= x - (lc + width - margin) ==>
            shift_step(x, past_x, lc, margin, width, beyond).0 + width - margin == x,
        lc + margin <= x <= lc + width - margin ==> shift_step(x, past_x, lc, margin, width, beyond).0 == lc,
{
}

} // verus!
