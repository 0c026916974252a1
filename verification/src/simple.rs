//! The plainer editor: four modes without data, direct cursor targets,
//! edit operations that say where they leave the cursor, and a line drawn
//! with one selection highlight.
use vstd::prelude::*;

use crate::cursor::Pos;
use crate::editor::Editor;
use crate::execute::with_cursor;
use crate::highlight::RangeHighlight;
use crate::text::slice_chars;

verus! {

#[derive(Clone, Copy, PartialEq, Eq, Structural)]
pub enum EditorMode {
    Insert,
    Prompt,
    Goto,
    Search,
}

#[derive(Clone, Copy)]
pub enum MoveCursor {
    ToAbsolutePos((usize, usize)),
    Up(usize),
    Down(usize),
    Left(usize),
    Right(usize),
    NextWord,
    PreviousWord,
    NextParagraph,
    PreviousParagraph,
    MatchingParenthesis,
    NextOccurrenceOf(char),
    PreviousOccurrenceOf(char),
}

/// An edit, as the document applies it.
pub enum DocumentEdit {
    InsertCharAt { pos: Pos, ch: char },
    DeleteCharAt { pos: Pos },
    InsertStringAt { pos: Pos, string: String },
    DeleteRange { x_from: usize, x_to: usize, y: usize },
    ReplaceRange { x_from: usize, x_to: usize, y: usize, string: String },
    InsertStringsAtMultiline { pos: Pos, strings: Vec<String> },
    ReplaceRangeMultiline { pos_from: Pos, pos_to: Pos, strings: Vec<String> },
    DeleteRangeMultiline { pos_from: Pos, pos_to: Pos },
}

/// Where an edit leaves the cursor: after an inserted character or string
/// (a string counted in bytes), before a deleted character, at the start
/// of a deleted range, at the start of the line after inserted lines, or
/// after the last of the lines that replace a range.
pub open spec fn landing_pos(op: DocumentEdit) -> Pos {
    match op {
        DocumentEdit::InsertCharAt { pos, .. } => ((pos.0 + 1) as usize, pos.1),
        DocumentEdit::DeleteCharAt { pos } => (if pos.0 == 0 { 0 } else { (pos.0 - 1) as usize }, pos.1),
        DocumentEdit::InsertStringAt { pos, string } =>
            ((pos.0 + vstd::utf8::encode_utf8(string@).len()) as usize, pos.1),
        DocumentEdit::DeleteRange { x_from, y, .. } => (x_from, y),
        DocumentEdit::InsertStringsAtMultiline { pos, strings } => (0, (pos.1 + strings@.len()) as usize),
        DocumentEdit::ReplaceRangeMultiline { pos_from, strings, .. } => (
            if strings@.len() > 0 { strings@.last()@.len() as usize } else { 0 },
            (pos_from.1 + strings@.len()) as usize,
        ),
        DocumentEdit::DeleteRangeMultiline { pos_from, .. } => pos_from,
        DocumentEdit::ReplaceRange { .. } => (0, 0),
    }
}

/// The edits whose landing place is defined and fits in a position.
pub open spec fn landing_defined(op: DocumentEdit) -> bool {
    match op {
        DocumentEdit::InsertCharAt { pos, .. } => pos.0 < usize::MAX,
        DocumentEdit::InsertStringAt { pos, string } =>
            pos.0 + vstd::utf8::encode_utf8(string@).len() <= usize::MAX,
        DocumentEdit::InsertStringsAtMultiline { pos, strings } => pos.1 + strings@.len() <= usize::MAX,
        DocumentEdit::ReplaceRangeMultiline { pos_from, strings, .. } => pos_from.1 + strings@.len() <= usize::MAX,
        DocumentEdit::ReplaceRange { .. } => false,
        _ => true,
    }
}

impl Editor {
    /// Moves the cursor to where `op` leaves it.
    pub fn apply_edit_side_effects(&mut self, op: &DocumentEdit)
        requires
            old(self).wf(),
            landing_defined(*op),
        ensures
            final(self).wf(),
            final(self)@ == with_cursor(old(self)@, old(self)@.cursor.moved_to(landing_pos(*op), false)),
    {
        let pos = match op {
            DocumentEdit::InsertCharAt { pos, .. } => (pos.0 + 1, pos.1),
            DocumentEdit::DeleteCharAt { pos } => (pos.0.saturating_sub(1), pos.1),
            DocumentEdit::InsertStringAt { pos, string } => (pos.0 + string.as_str().len(), pos.1),
            DocumentEdit::DeleteRange { x_from, y, .. } => (*x_from, *y),
            DocumentEdit::InsertStringsAtMultiline { pos, strings } => (0, pos.1 + strings.len()),
            DocumentEdit::ReplaceRangeMultiline { pos_from, strings, .. } => {
                let landing_x = if strings.len() > 0 { strings[strings.len() - 1].as_str().unicode_len() } else { 0 };
                (landing_x, pos_from.1 + strings.len())
            },
            DocumentEdit::DeleteRangeMultiline { pos_from, .. } => *pos_from,
            DocumentEdit::ReplaceRange { .. } => (0, 0),
        };
        self.cursor.update_pos(pos, false);
    }
}

/// A piece of a drawn line.
pub enum Segment {
    Text(Vec<char>),
    HighlightStart,
    HighlightEnd,
}

pub enum SegmentView {
    Text(Seq<char>),
    HighlightStart,
    HighlightEnd,
}

impl View for Segment {
    type V = SegmentView;

    open spec fn view(&self) -> SegmentView {
        match self {
            Segment::Text(t) => SegmentView::Text(t@),
            Segment::HighlightStart => SegmentView::HighlightStart,
            Segment::HighlightEnd => SegmentView::HighlightEnd,
        }
    }
}

/// Draws part of a line with one highlighted stretch.
pub struct LineRenderer<'line> {
    pub line: &'line Vec<char>,
    pub display_range: (usize, usize),
    pub selection_highlight: RangeHighlight,
}

pub open spec fn min_nat(a: int, b: int) -> int {
    if a <= b { a } else { b }
}

/// The pieces that draw `content` with `highlight`: before a column, the
/// part before it is highlighted; after a column, the part from it; for a
/// range, the part between its columns (all limited to the content).
pub open spec fn segments(content: Seq<char>, highlight: RangeHighlight) -> Seq<SegmentView> {
    let n = content.len() as int;
    match highlight {
        RangeHighlight::Empty => seq![SegmentView::Text(content)],
        RangeHighlight::WholeLine => seq![SegmentView::HighlightStart, SegmentView::Text(content), SegmentView::HighlightEnd],
        RangeHighlight::Before(x) => {
            let x = min_nat(x as int, n);
            seq![SegmentView::HighlightStart, SegmentView::Text(content.take(x)), SegmentView::HighlightEnd,
                SegmentView::Text(content.skip(x))]
        },
        RangeHighlight::After(x) => {
            let x = min_nat(x as int, n);
            seq![SegmentView::HighlightEnd, SegmentView::Text(content.take(x)), SegmentView::HighlightStart,
                SegmentView::Text(content.skip(x))]
        },
        RangeHighlight::Range(s, e) => {
            let x1 = min_nat(s as int, n);
            let x2 = x1 + min_nat(if e >= x1 { e - x1 } else { 0 }, n - x1);
            seq![SegmentView::Text(content.take(x1)), SegmentView::HighlightStart,
                SegmentView::Text(content.subrange(x1, x2)), SegmentView::HighlightEnd, SegmentView::Text(content.skip(x2))]
        },
    }
}

impl<'line> LineRenderer<'line> {
    /// Draws the whole line, without highlight.
    pub fn new(line: &'line Vec<char>) -> (r: Self)
        ensures
            r.line == line,
            r.display_range == (0usize, line@.len() as usize),
            r.selection_highlight == RangeHighlight::Empty,
    {
        LineRenderer { line, display_range: (0, line.len()), selection_highlight: RangeHighlight::Empty }
    }

    pub fn with_display_range(self, display_range: (usize, usize)) -> (r: Self)
        ensures
            r.line == self.line,
            r.display_range == display_range,
            r.selection_highlight == self.selection_highlight,
    {
        LineRenderer { display_range, ..self }
    }

    pub fn with_selection_highlight(self, selection_highlight: RangeHighlight) -> (r: Self)
        ensures
            r.line == self.line,
            r.display_range == self.display_range,
            r.selection_highlight == selection_highlight,
    {
        LineRenderer { selection_highlight, ..self }
    }

    /// The pieces that draw the shown part of the line.
    pub fn render_to(&self) -> (r: Vec<Segment>)
        requires
            self.display_range.0 <= self.display_range.1 <= self.line@.len(),
        ensures
            r@.map_values(|s: Segment| s@) == segments(
                self.line@.subrange(self.display_range.0 as int, self.display_range.1 as int), self.selection_highlight),
    {
        let content = slice_chars(self.line.as_slice(), self.display_range.0, self.display_range.1);
        let n = content.len();
        let mut r: Vec<Segment> = Vec::new();
        match self.selection_highlight {
            RangeHighlight::Empty => {
                r.push(Segment::Text(content));
            },
            RangeHighlight::WholeLine => {
                r.push(Segment::HighlightStart);
                r.push(Segment::Text(content));
                r.push(Segment::HighlightEnd);
            },
            RangeHighlight::Before(x) => {
                let x = if x <= n { x } else { n };
                r.push(Segment::HighlightStart);
                r.push(Segment::Text(slice_chars(content.as_slice(), 0, x)));
                r.push(Segment::HighlightEnd);
                r.push(Segment::Text(slice_chars(content.as_slice(), x, n)));
            },
            RangeHighlight::After(x) => {
                let x = if x <= n { x } else { n };
                r.push(Segment::HighlightEnd);
                r.push(Segment::Text(slice_chars(content.as_slice(), 0, x)));
                r.push(Segment::HighlightStart);
                r.push(Segment::Text(slice_chars(content.as_slice(), x, n)));
            },
            RangeHighlight::Range(s, e) => {
                let x1 = if s <= n { s } else { n };
                let rest = e.saturating_sub(x1);
                let x2 = x1 + if rest <= n - x1 { rest } else { n - x1 };
                r.push(Segment::Text(slice_chars(content.as_slice(), 0, x1)));
                r.push(Segment::HighlightStart);
                r.push(Segment::Text(slice_chars(content.as_slice(), x1, x2)));
                r.push(Segment::HighlightEnd);
                r.push(Segment::Text(slice_chars(content.as_slice(), x2, n)));
            },
        }
        proof {
            assert(r@.map_values(|s: Segment| s@) =~= segments(content@, self.selection_highlight));
        }
        r
    }
}

/// The text pieces of `segs`, put together.
pub open spec fn text_of(segs: Seq<SegmentView>) -> Seq<char>
    decreases segs.len(),
{
    if segs.len() == 0 {
        Seq::empty()
    } else {
        text_of(segs.drop_last()) + match segs.last() {
            SegmentView::Text(t) => t,
            _ => Seq::empty(),
        }
    }
}

/// Drawing a line with a highlight keeps its text: the text pieces, put
/// together, are the shown part of the line.
pub proof fn lemma_segments_keep_text(content: Seq<char>, highlight: RangeHighlight)
    ensures
        text_of(segments(content, highlight)) == content,
{
    let segs = segments(content, highlight);
    reveal_with_fuel(text_of, 6);
    match highlight {
        RangeHighlight::Empty => {
            assert(segs.drop_last() =~= Seq::<SegmentView>::empty());
        },
        RangeHighlight::WholeLine => {
            assert(segs.drop_last().drop_last().drop_last() =~= Seq::<SegmentView>::empty());
            assert(text_of(segs) =~= content);
        },
        RangeHighlight::Before(x) => {
            let x = min_nat(x as int, content.len() as int);
            assert(segs.drop_last().drop_last().drop_last().drop_last() =~= Seq::<SegmentView>::empty());
            assert(content.take(x) + content.skip(x) =~= content);
            assert(text_of(segs) =~= content);
        },
        RangeHighlight::After(x) => {
            let x = min_nat(x as int, content.len() as int);
            assert(segs.drop_last().drop_last().drop_last().drop_last() =~= Seq::<SegmentView>::empty());
            assert(content.take(x) + content.skip(x) =~= content);
            assert(text_of(segs) =~= content);
        },
        RangeHighlight::Range(s, e) => {
            let n = content.len() as int;
            let x1 = min_nat(s as int, n);
            let x2 = x1 + min_nat(if e >= x1 { e - x1 } else { 0 }, n - x1);
            assert(segs.drop_last().drop_last().drop_last().drop_last().drop_last() =~= Seq::<SegmentView>::empty());
            assert(content.take(x1) + content.subrange(x1, x2) + content.skip(x2) =~= content);
            assert(text_of(segs) =~= content);
        },
    }
}

} // verus!
