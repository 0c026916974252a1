use vstd::prelude::*;

use crate::cursor::Pos;

verus! {

/// A range of the document from its first to its last position.
pub type SelectionRage = (Pos, Pos);

/// What part of one line a range of the document covers.
#[derive(Clone, Copy, PartialEq, Eq, Structural)]
pub enum RangeHighlight {
    Empty,
    WholeLine,
    /// From the start of the line up to (not including) the column.
    Before(usize),
    /// From the column to the end of the line.
    After(usize),
    /// From the first column up to (not including) the second.
    Range(usize, usize),
}

/// The part of line `line_idx` that `range` covers.
pub open spec fn line_highlight(line_idx: usize, range: SelectionRage) -> RangeHighlight {
    let ((start_x, start_y), (end_x, end_y)) = range;
    if start_y == end_y && start_y == line_idx {
        RangeHighlight::Range(start_x, end_x)
    } else if start_y == line_idx {
        RangeHighlight::After(start_x)
    } else if end_y == line_idx {
        RangeHighlight::Before(end_x)
    } else if start_y < line_idx && end_y > line_idx {
        RangeHighlight::WholeLine
    } else {
        RangeHighlight::Empty
    }
}

impl RangeHighlight {
    pub fn new(line_idx: usize, selection_range: &SelectionRage) -> (h: Self)
        ensures
            h == line_highlight(line_idx, *selection_range),
    {
        let ((start_x, start_y), (end_x, end_y)) = *selection_range;
        if start_y == end_y && start_y == line_idx {
            RangeHighlight::Range(start_x, end_x)
        } else if start_y == line_idx {
            RangeHighlight::After(start_x)
        } else if end_y == line_idx {
            RangeHighlight::Before(end_x)
        } else if start_y < line_idx && end_y > line_idx {
            RangeHighlight::WholeLine
        } else {
            RangeHighlight::Empty
        }
    }
}

/// A coloured stretch of a line, from `start` to `end` inclusive (empty
/// when `end < start`).
pub struct ColorRange<'renderer> {
    pub start: usize,
    pub end: usize,
    pub is_bg: bool,
    pub color_str: &'renderer str,
}

/// Colour decisions for drawing one line: which stretches get which colour,
/// from which character on the line is shown, and whether a cursor sits
/// past its end.
pub struct LineRenderer<'a> {
    /// The number of characters on the line.
    pub line_len: usize,
    /// The first character shown.
    pub char_offset: usize,
    pub visual_offset: usize,
    pub ui_width: usize,
    pub color_ranges: Vec<ColorRange<'a>>,
    pub tab_size: usize,
    pub cursor_at_end: bool,
}

/// The stretch `highlight` covers on a line of `line_len` characters, as
/// (start, inclusive end), if any.
pub open spec fn highlight_span(highlight: RangeHighlight, line_len: usize) -> Option<(usize, usize)> {
    match highlight {
        RangeHighlight::Empty => None,
        RangeHighlight::After(start) => Some((start, line_len)),
        RangeHighlight::Before(end) => if end == 0 { None } else { Some((0, (end - 1) as usize)) },
        RangeHighlight::WholeLine => Some((0, line_len)),
        RangeHighlight::Range(start, end) => if end == 0 { None } else { Some((start, (end - 1) as usize)) },
    }
}

/// The stretch opens at character `char_idx`: where it starts, or, at the
/// first character shown, when it started earlier.
pub open spec fn opens_at(r: ColorRange, char_idx: usize, char_offset: usize) -> bool {
    r.start <= r.end && (if char_idx == char_offset { r.start <= char_idx } else { r.start == char_idx })
}

/// The stretch closes after character `char_idx`.
pub open spec fn closes_at(r: ColorRange, char_idx: usize) -> bool {
    r.end == char_idx && r.end >= r.start
}

impl<'a> LineRenderer<'a> {
    pub fn new(line_len: usize, char_offset: usize, visual_offset: usize, ui_width: usize, tab_size: usize) -> (r: Self)
        ensures
            r.line_len == line_len,
            r.char_offset == char_offset,
            r.visual_offset == visual_offset,
            r.ui_width == ui_width,
            r.tab_size == tab_size,
            r.color_ranges@.len() == 0,
            !r.cursor_at_end,
    {
        LineRenderer { line_len, char_offset, visual_offset, ui_width, color_ranges: Vec::new(), tab_size, cursor_at_end: false }
    }

    /// Colours the stretch of the line that `range_highlight` covers.
    pub fn add_range_highlight(&mut self, range_highlight: RangeHighlight, is_bg: bool, color_str: &'a str)
        ensures
            final(self).line_len == old(self).line_len,
            final(self).char_offset == old(self).char_offset,
            final(self).cursor_at_end == old(self).cursor_at_end,
            match highlight_span(range_highlight, old(self).line_len) {
                Some((start, end)) => final(self).color_ranges@ == old(self).color_ranges@.push(
                    ColorRange { start, end, is_bg, color_str }),
                None => final(self).color_ranges@ == old(self).color_ranges@,
            },
    {
        match range_highlight {
            RangeHighlight::Empty => {},
            RangeHighlight::After(start) => {
                self.color_ranges.push(ColorRange { start, end: self.line_len, is_bg, color_str });
            },
            RangeHighlight::Before(end) => {
                if end > 0 {
                    self.color_ranges.push(ColorRange { start: 0, end: end - 1, is_bg, color_str });
                }
            },
            RangeHighlight::WholeLine => {
                self.color_ranges.push(ColorRange { start: 0, end: self.line_len, is_bg, color_str });
            },
            RangeHighlight::Range(start, end) => {
                if end > 0 {
                    self.color_ranges.push(ColorRange { start, end: end - 1, is_bg, color_str });
                }
            },
        }
    }

    /// Shows a cursor at `cursor_x`: as reversed colours on its character,
    /// or past the end of the line.
    pub fn add_cursor(&mut self, cursor_x: usize, fg_color: &'a str, bg_color: &'a str)
        ensures
            final(self).line_len == old(self).line_len,
            final(self).char_offset == old(self).char_offset,
            cursor_x >= old(self).line_len ==> final(self).cursor_at_end && final(self).color_ranges@ == old(self).color_ranges@,
            cursor_x < old(self).line_len ==> final(self).cursor_at_end == old(self).cursor_at_end
                && final(self).color_ranges@ == old(self).color_ranges@
                    .push(ColorRange { start: cursor_x, end: cursor_x, is_bg: false, color_str: fg_color })
                    .push(ColorRange { start: cursor_x, end: cursor_x, is_bg: true, color_str: bg_color }),
    {
        if cursor_x >= self.line_len {
            self.cursor_at_end = true;
            return;
        }
        self.color_ranges.push(ColorRange { start: cursor_x, end: cursor_x, is_bg: false, color_str: fg_color });
        self.color_ranges.push(ColorRange { start: cursor_x, end: cursor_x, is_bg: true, color_str: bg_color });
    }

    /// The colours to switch on before character `char_idx`, in order.
    pub fn colors_opening_at(&self, char_idx: usize) -> (r: Vec<&'a str>)
        ensures
            r@ == self.color_ranges@.filter(|c: ColorRange| opens_at(c, char_idx, self.char_offset))
                .map_values(|c: ColorRange<'a>| c.color_str),
    {
        let mut r: Vec<&'a str> = Vec::new();
        let mut i: usize = 0;
        while i < self.color_ranges.len()
            invariant
                i <= self.color_ranges@.len(),
                r@ == self.color_ranges@.take(i as int).filter(|c: ColorRange| opens_at(c, char_idx, self.char_offset))
                    .map_values(|c: ColorRange<'a>| c.color_str),
            decreases self.color_ranges@.len() - i,
        {
            let range = &self.color_ranges[i];
            proof {
                assert(self.color_ranges@.take(i + 1).drop_last() == self.color_ranges@.take(i as int));
                reveal_with_fuel(Seq::filter, 1);
            }
            let opens = range.start <= range.end
                && (if char_idx == self.char_offset { range.start <= char_idx } else { range.start == char_idx });
            if opens {
                r.push(range.color_str);
            }
            i += 1;
        }
        assert(self.color_ranges@.take(self.color_ranges@.len() as int) == self.color_ranges@);
        r
    }

    /// The stretches that close after character `char_idx`, as whether each
    /// is a background colour, in order.
    pub fn colors_closing_at(&self, char_idx: usize) -> (r: Vec<bool>)
        ensures
            r@ == self.color_ranges@.filter(|c: ColorRange| closes_at(c, char_idx))
                .map_values(|c: ColorRange<'a>| c.is_bg),
    {
        let mut r: Vec<bool> = Vec::new();
        let mut i: usize = 0;
        while i < self.color_ranges.len()
            invariant
                i <= self.color_ranges@.len(),
                r@ == self.color_ranges@.take(i as int).filter(|c: ColorRange| closes_at(c, char_idx))
                    .map_values(|c: ColorRange<'a>| c.is_bg),
            decreases self.color_ranges@.len() - i,
        {
            let range = &self.color_ranges[i];
            proof {
                assert(self.color_ranges@.take(i + 1).drop_last() == self.color_ranges@.take(i as int));
                reveal_with_fuel(Seq::filter, 1);
            }
            if range.end == char_idx && range.end >= range.start {
                r.push(range.is_bg);
            }
            i += 1;
        }
        assert(self.color_ranges@.take(self.color_ranges@.len() as int) == self.color_ranges@);
        r
    }

    /// The spaces that draw a tab at visual column `visual_idx`: up to the
    /// next tab stop.
    pub fn tab_width(&self, visual_idx: usize) -> (n: usize)
        requires
            self.tab_size > 0,
        ensures
            n == self.tab_size - (visual_idx % self.tab_size),
            1 <= n <= self.tab_size,
    {
        self.tab_size - (visual_idx % self.tab_size)
    }
}

/// Every position of a one-line range, from its start up to its end, is
/// highlighted on that line, and no other line is.
pub proof fn lemma_single_line_range(line_idx: usize, sx: usize, ex: usize, y: usize)
    ensures
        line_highlight(line_idx, ((sx, y), (ex, y))) == (if line_idx == y {
            RangeHighlight::Range(sx, ex)
        } else {
            RangeHighlight::Empty
        }),
{
}

/// For a range over several lines, the lines strictly inside it are wholly
/// highlighted, its first line from the start column on, its last line up
/// to the end column.
pub proof fn lemma_multi_line_range(line_idx: usize, sx: usize, sy: usize, ex: usize, ey: usize)
    requires
        sy < ey,
    ensures
        sy < line_idx < ey ==> line_highlight(line_idx, ((sx, sy), (ex, ey))) == RangeHighlight::WholeLine,
        line_idx == sy ==> line_highlight(line_idx, ((sx, sy), (ex, ey))) == RangeHighlight::After(sx),
        line_idx == ey ==> line_highlight(line_idx, ((sx, sy), (ex, ey))) == RangeHighlight::Before(ex),
        (line_idx < sy || line_idx > ey) ==> line_highlight(line_idx, ((sx, sy), (ex, ey))) == RangeHighlight::Empty,
{
}

/// What drawing a line writes, in order.
pub enum Piece<'a> {
    /// The escape sequence that switches a colour on.
    Color(&'a str),
    Char(char),
    /// Spaces that draw (part of) a tab.
    Spaces(usize),
    ResetFg,
    ResetBg,
    /// A cursor past the end of the line.
    EmptyCursor,
}

/// The columns character `ch` takes when drawn at column `visual`: a tab
/// reaches the next tab stop.
pub open spec fn char_width(ch: char, visual: int, tab: int) -> int {
    if ch == '\t' { tab - visual % tab } else { 1 }
}

/// The column at which character `i` of `chars` is drawn.
pub open spec fn visual_at(chars: Seq<char>, i: int, tab: int) -> int
    decreases i,
{
    if i <= 0 { 0 } else { visual_at(chars, i - 1, tab) + char_width(chars[i - 1], visual_at(chars, i - 1, tab), tab) }
}

pub open spec fn opening_pieces<'a>(lr: LineRenderer<'a>, idx: usize) -> Seq<Piece<'a>> {
    lr.color_ranges@.filter(|c: ColorRange| opens_at(c, idx, lr.char_offset))
        .map_values(|c: ColorRange<'a>| Piece::Color(c.color_str))
}

pub open spec fn reset_piece<'a>(is_bg: bool) -> Piece<'a> {
    if is_bg { Piece::ResetBg } else { Piece::ResetFg }
}

pub open spec fn closing_pieces<'a>(lr: LineRenderer<'a>, idx: usize) -> Seq<Piece<'a>> {
    lr.color_ranges@.filter(|c: ColorRange| closes_at(c, idx)).map_values(|c: ColorRange<'a>| reset_piece(c.is_bg))
}

/// Character `i` is within the columns on screen.
pub open spec fn shown(lr: LineRenderer, chars: Seq<char>, i: int) -> bool {
    let v = visual_at(chars, i, lr.tab_size as int);
    lr.visual_offset <= v < lr.visual_offset + lr.ui_width
}

/// Drawing character `i`: the colours that open there, the character (a tab
/// as spaces), then the resets of the colours that close there.
pub open spec fn char_pieces<'a>(lr: LineRenderer<'a>, chars: Seq<char>, i: int) -> Seq<Piece<'a>> {
    opening_pieces(lr, i as usize) + seq![drawn_piece(lr, chars, i)] + closing_pieces(lr, i as usize)
}

/// Character `i` itself, a tab as spaces up to the next tab stop.
pub open spec fn drawn_piece<'a>(lr: LineRenderer<'a>, chars: Seq<char>, i: int) -> Piece<'a> {
    let ch = chars[i];
    if ch == '\t' {
        Piece::Spaces(char_width(ch, visual_at(chars, i, lr.tab_size as int), lr.tab_size as int) as usize)
    } else {
        Piece::Char(ch)
    }
}

/// Drawing the first `k` characters: those on screen, in order.
pub open spec fn body_pieces<'a>(lr: LineRenderer<'a>, chars: Seq<char>, k: int) -> Seq<Piece<'a>>
    decreases k,
{
    if k <= 0 {
        Seq::empty()
    } else {
        body_pieces(lr, chars, k - 1) + (if shown(lr, chars, k - 1) { char_pieces(lr, chars, k - 1) } else { Seq::empty() })
    }
}

/// Before the characters: the colours already open at the first character
/// shown, and the visible part of a tab cut by the left edge.
pub open spec fn prelude_pieces<'a>(lr: LineRenderer<'a>, chars: Seq<char>) -> Seq<Piece<'a>> {
    let tab = lr.tab_size as int;
    let off = lr.char_offset as int;
    let vo = lr.visual_offset as int;
    opening_pieces(lr, lr.char_offset) + (if vo % tab != 0 && off < chars.len() && chars[off] == '\t' {
        seq![Piece::Spaces((tab - vo % tab) as usize)]
    } else {
        Seq::empty()
    })
}

/// After the characters: a cursor past the end, then both colours reset.
pub open spec fn tail_pieces<'a>(lr: LineRenderer<'a>) -> Seq<Piece<'a>> {
    (if lr.cursor_at_end { seq![Piece::EmptyCursor] } else { Seq::empty() }) + seq![Piece::ResetFg, Piece::ResetBg]
}

/// Drawing the line `chars`.
pub open spec fn line_pieces<'a>(lr: LineRenderer<'a>, chars: Seq<char>) -> Seq<Piece<'a>> {
    prelude_pieces(lr, chars) + body_pieces(lr, chars, chars.len() as int) + tail_pieces(lr)
}

/// Columns only grow from one character to the next.
proof fn lemma_visual_grows(chars: Seq<char>, i: int, j: int, tab: int)
    requires
        0 <= i <= j,
        tab > 0,
    ensures
        visual_at(chars, i, tab) <= visual_at(chars, j, tab),
    decreases j - i,
{
    if i < j {
        lemma_visual_grows(chars, i, j - 1, tab);
        let v = visual_at(chars, j - 1, tab);
        assert(char_width(chars[j - 1], v, tab) >= 1) by {
            if chars[j - 1] == '\t' {
                assert(v % tab < tab);
            }
        }
    }
}

/// Once a character lies right of the screen, no later one is drawn.
proof fn lemma_body_stops<'a>(lr: LineRenderer<'a>, chars: Seq<char>, i: int, k: int)
    requires
        0 <= i <= k,
        lr.tab_size > 0,
        visual_at(chars, i, lr.tab_size as int) >= lr.visual_offset + lr.ui_width,
    ensures
        body_pieces(lr, chars, k) == body_pieces(lr, chars, i),
    decreases k - i,
{
    if i < k {
        lemma_body_stops(lr, chars, i, k - 1);
        lemma_visual_grows(chars, i, k - 1, lr.tab_size as int);
        assert(!shown(lr, chars, k - 1));
    }
}

impl<'a> LineRenderer<'a> {
    fn push_openings(&self, out: &mut Vec<Piece<'a>>, idx: usize)
        ensures
            final(out)@ == old(out)@ + opening_pieces(*self, idx),
    {
        let colors = self.colors_opening_at(idx);
        let ghost start = out@;
        let mut j: usize = 0;
        while j < colors.len()
            invariant
                j <= colors@.len(),
                out@ == start + colors@.take(j as int).map_values(|s: &'a str| Piece::Color(s)),
            decreases colors@.len() - j,
        {
            out.push(Piece::Color(colors[j]));
            proof {
                assert(colors@.take(j + 1).map_values(|s: &'a str| Piece::Color(s))
                    =~= colors@.take(j as int).map_values(|s: &'a str| Piece::Color(s)).push(Piece::Color(colors@[j as int])));
            }
            j += 1;
        }
        proof {
            assert(colors@.take(colors@.len() as int) == colors@);
            assert(colors@.map_values(|s: &'a str| Piece::Color(s)) =~= opening_pieces(*self, idx));
        }
    }

    fn push_closings(&self, out: &mut Vec<Piece<'a>>, idx: usize)
        ensures
            final(out)@ == old(out)@ + closing_pieces(*self, idx),
    {
        let closings = self.colors_closing_at(idx);
        let ghost start = out@;
        let mut j: usize = 0;
        while j < closings.len()
            invariant
                j <= closings@.len(),
                out@ == start + closings@.take(j as int).map_values(|b: bool| reset_piece::<'a>(b)),
            decreases closings@.len() - j,
        {
            out.push(if closings[j] { Piece::ResetBg } else { Piece::ResetFg });
            proof {
                assert(closings@.take(j + 1).map_values(|b: bool| reset_piece::<'a>(b))
                    =~= closings@.take(j as int).map_values(|b: bool| reset_piece::<'a>(b)).push(reset_piece(closings@[j as int])));
            }
            j += 1;
        }
        proof {
            assert(closings@.take(closings@.len() as int) == closings@);
            assert(closings@.map_values(|b: bool| reset_piece::<'a>(b)) =~= closing_pieces(*self, idx));
        }
    }

    /// What drawing the line `chars` writes: the colours open at the first
    /// character shown, the characters within the columns on screen, each
    /// between the colours that open and close on it (tabs as spaces up to
    /// the next tab stop), a cursor past the end, and the colour resets.
    pub fn render_pieces(&self, chars: &[char]) -> (r: Vec<Piece<'a>>)
        requires
            self.tab_size > 0,
            self.visual_offset + self.ui_width + self.tab_size <= usize::MAX,
        ensures
            r@ == line_pieces(*self, chars@),
    {
        let tab = self.tab_size;
        let mut out: Vec<Piece<'a>> = Vec::new();
        self.push_openings(&mut out, self.char_offset);
        if self.visual_offset % tab != 0 && self.char_offset < chars.len() && chars[self.char_offset] == '\t' {
            out.push(Piece::Spaces(tab - self.visual_offset % tab));
        }
        let ghost pre = out@;
        assert(pre =~= prelude_pieces(*self, chars@));

        let limit = self.visual_offset + self.ui_width;
        let mut visual: usize = 0;
        let mut i: usize = 0;
        while i < chars.len() && visual < limit
            invariant
                i <= chars@.len(),
                tab == self.tab_size,
                tab > 0,
                limit == self.visual_offset + self.ui_width,
                limit + tab <= usize::MAX,
                visual == visual_at(chars@, i as int, tab as int),
                out@ == pre + body_pieces(*self, chars@, i as int),
            decreases chars@.len() - i,
        {
            let ch = chars[i];
            let width = if ch == '\t' { self.tab_width(visual) } else { 1 };
            if visual >= self.visual_offset {
                let ghost before = out@;
                self.push_openings(&mut out, i);
                let piece = if ch == '\t' { Piece::Spaces(width) } else { Piece::Char(ch) };
                assert(piece == drawn_piece(*self, chars@, i as int));
                out.push(piece);
                self.push_closings(&mut out, i);
                assert(char_pieces(*self, chars@, i as int)
                    =~= opening_pieces(*self, i) + seq![piece] + closing_pieces(*self, i));
                assert(out@ =~= before + char_pieces(*self, chars@, i as int));
            }
            assert(body_pieces(*self, chars@, i + 1) == body_pieces(*self, chars@, i as int)
                + (if shown(*self, chars@, i as int) { char_pieces(*self, chars@, i as int) } else { Seq::empty() }));
            visual = visual + width;
            i += 1;
        }
        proof {
            if i < chars@.len() {
                lemma_body_stops(*self, chars@, i as int, chars@.len() as int);
            }
        }
        if self.cursor_at_end {
            out.push(Piece::EmptyCursor);
        }
        out.push(Piece::ResetFg);
        out.push(Piece::ResetBg);
        out
    }
}

/// Character `i` lies in the stretch `span` (inclusive at both ends).
pub open spec fn covers(span: Option<(usize, usize)>, i: int) -> bool {
    match span {
        Some((a, b)) => a <= i <= b,
        None => false,
    }
}

/// A range colours exactly the characters from its start up to, not
/// including, its end; an empty range colours nothing.
pub proof fn lemma_range_end_excluded(s: usize, e: usize, line_len: usize, i: int)
    ensures
        covers(highlight_span(RangeHighlight::Range(s, e), line_len), i) <==> s <= i < e,
        covers(highlight_span(RangeHighlight::Before(e), line_len), i) <==> 0 <= i < e,
{
}

} // verus!
