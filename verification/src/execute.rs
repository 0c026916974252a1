use vstd::prelude::*;

use crate::commands::{
    CommandExecutionResult, CommandView, CursorMovement, EditOperation, EditView, EditorCommand, Text, TextView,
};
use crate::cursor::{Cursor, CursorView, Pos, pos_before};
use crate::editor::{Editor, EditorView, Popup};
use crate::keys::{Key, chord_buffer_wf, chord_step};
use crate::modes::{command_binding, insert_chord_binding};
use crate::keys::Input;
use crate::modes::EditorMode;
use crate::search::{SearchItem, compile_regex, item_pattern, regex_accepts};
use crate::status::SubmitAction;
use crate::text::{chars_of, parse_unsigned, parse_unsigned_chars, decimal_string, push_chars, push_str, slice_chars, usize_chars};

verus! {

/// Work that only the outside world can do for a command: the document's
/// own algorithms, the clipboard, the notification channel, files and
/// processes. Each names the editor function that takes its result.
pub enum EditorAction {
    /// Save the document; on failure show the error.
    Save { display_notification: bool },
    /// Send a notification.
    Notify(Vec<char>),
    /// Send `notice`, put `text` on the clipboard, then apply `cut` if any.
    Yank { text: Text, notice: Vec<char>, cut: Option<EditOperation> },
    /// Read the clipboard and hand its text to `paste_text`.
    Paste,
    /// Apply the edit and hand the new cursor position to `finish_edit`.
    ApplyEdit { op: EditOperation, is_typing: bool },
    /// Undo the last edit and hand the new cursor position to `finish_edit`.
    Undo,
    /// Redo the last undone edit and hand the new cursor position to `finish_edit`.
    Redo,
    /// Find where the movement goes in the document and hand it to `finish_movement`.
    Locate(CursorMovement),
    /// Find the bounds of the word at `pos` and hand them to `find_word_match`.
    FindWordAt { pos: Pos, forward: bool },
    /// Find the next (or previous) occurrence of `literal` from `origin`
    /// and hand it to `finish_find`.
    FindLiteral { origin: Pos, literal: Vec<char>, forward: bool },
    /// Search from `origin` for `item` (with the prompt line as the literal)
    /// and hand the match and the item to `finish_incremental_search`.
    Search { origin: Pos, backwards: bool, item: SearchItem },
    /// Search again from `origin` for the current search item and hand the
    /// match to `finish_search_again`.
    SearchAgain { origin: Pos, backwards: bool },
    /// Save and run the file with the runner that the key picks.
    ExecuteFile(Key),
    /// Swap the document with the output of the last run.
    ToggleExecutionOutput,
    /// Run the submitted prompt line and hand the result to `finish_submit`.
    Submit { action: SubmitAction, prompt: Vec<char> },
}

pub enum ActionView {
    Save { display_notification: bool },
    Notify(Seq<char>),
    Yank { text: TextView, notice: Seq<char>, cut: Option<EditView> },
    Paste,
    ApplyEdit { op: EditView, is_typing: bool },
    Undo,
    Redo,
    Locate(CursorMovement),
    FindWordAt { pos: Pos, forward: bool },
    FindLiteral { origin: Pos, literal: Seq<char>, forward: bool },
    /// `regex`: the pattern of the regex searched with; `None` for a
    /// literal search for the prompt line.
    Search { origin: Pos, backwards: bool, regex: Option<Seq<char>> },
    SearchAgain { origin: Pos, backwards: bool },
    ExecuteFile(Key),
    ToggleExecutionOutput,
    Submit { action: SubmitAction, prompt: Seq<char> },
}

impl View for EditorAction {
    type V = ActionView;

    open spec fn view(&self) -> ActionView {
        match self {
            EditorAction::Save { display_notification } => ActionView::Save { display_notification: *display_notification },
            EditorAction::Notify(m) => ActionView::Notify(m@),
            EditorAction::Yank { text, notice, cut } => ActionView::Yank {
                text: text@,
                notice: notice@,
                cut: match cut { Some(op) => Some(op@), None => None },
            },
            EditorAction::Paste => ActionView::Paste,
            EditorAction::ApplyEdit { op, is_typing } => ActionView::ApplyEdit { op: op@, is_typing: *is_typing },
            EditorAction::Undo => ActionView::Undo,
            EditorAction::Redo => ActionView::Redo,
            EditorAction::Locate(m) => ActionView::Locate(*m),
            EditorAction::FindWordAt { pos, forward } => ActionView::FindWordAt { pos: *pos, forward: *forward },
            EditorAction::FindLiteral { origin, literal, forward } =>
                ActionView::FindLiteral { origin: *origin, literal: literal@, forward: *forward },
            EditorAction::Search { origin, backwards, item } =>
                ActionView::Search { origin: *origin, backwards: *backwards, regex: item_pattern(*item) },
            EditorAction::SearchAgain { origin, backwards } => ActionView::SearchAgain { origin: *origin, backwards: *backwards },
            EditorAction::ExecuteFile(k) => ActionView::ExecuteFile(*k),
            EditorAction::ToggleExecutionOutput => ActionView::ToggleExecutionOutput,
            EditorAction::Submit { action, prompt } => ActionView::Submit { action: *action, prompt: prompt@ },
        }
    }
}

pub open spec fn action_view(a: Option<EditorAction>) -> Option<ActionView> {
    match a {
        Some(a) => Some(a@),
        None => None,
    }
}

/// A step's outcome: the new editor, whether to go on, and outside work.
pub type Step = (EditorView, CommandExecutionResult, Option<ActionView>);

pub open spec fn proceed(v: EditorView) -> Step {
    (v, CommandExecutionResult::Continue, None)
}

pub open spec fn request(v: EditorView, a: ActionView) -> Step {
    (v, CommandExecutionResult::Continue, Some(a))
}

/// The warning shown on the first attempt to quit with unsaved changes.
pub open spec fn unsaved_changes_warning() -> Seq<char> {
    "\x1b[33mBuffer contains unsaved changes.\x1b[0m Ctrl-s: save, Ctrl-q: quit"@
}

/// Quitting: immediate when forced, when nothing is unsaved, when no
/// confirmation is wanted, or when the warning was already shown; otherwise
/// the warning is shown and the editor goes on.
pub open spec fn quit_step(v: EditorView, force: bool) -> (EditorView, CommandExecutionResult) {
    if !v.modified || !v.config.confirm_quit_unsaved_changes || v.first_quit_sent || force {
        (v, CommandExecutionResult::ShouldQuit)
    } else {
        (EditorView { notification: unsaved_changes_warning(), first_quit_sent: true, ..v }, CommandExecutionResult::Continue)
    }
}

/// The cursor kept within the document: its line at most one past the last
/// one, its column at most the length of the line it was on (the ideal
/// column where that fits).
pub open spec fn clamped(v: EditorView) -> EditorView {
    let y = v.cursor.cur.1;
    let n = v.lines.len();
    let max_x: int = if y < n { v.lines[y as int].len() as int } else { 0 };
    with_cursor(v, CursorView {
        cur: (
            if v.cursor.ideal_x <= max_x { v.cursor.ideal_x } else { max_x as usize },
            if y <= n { y } else { n as usize },
        ),
        ..v.cursor
    })
}

/// The cursor is on a line of the document, at most at its end, or at the
/// start of the line just past the last one.
pub open spec fn cursor_in_document(v: EditorView) -> bool {
    let (x, y) = v.cursor.cur;
    &&& y <= v.lines.len()
    &&& y < v.lines.len() ==> x <= v.lines[y as int].len()
    &&& y == v.lines.len() ==> x == 0
}

/// The lines and their lengths fit in machine integers, as those of a
/// document in memory do.
pub open spec fn lines_fit(v: EditorView) -> bool {
    &&& v.lines.len() <= usize::MAX
    &&& forall|k: int| 0 <= k < v.lines.len() ==> #[trigger] v.lines[k].len() <= usize::MAX
}

/// After clamping, the cursor lies within the document.
pub proof fn lemma_clamp_within_document(v: EditorView)
    requires
        lines_fit(v),
    ensures
        cursor_in_document(clamped(v)),
{
}

/// Clamping a clamped cursor changes nothing.
pub proof fn lemma_clamp_idempotent(v: EditorView)
    requires
        lines_fit(v),
    ensures
        clamped(clamped(v)) == clamped(v),
{
}

pub open spec fn with_cursor(v: EditorView, c: CursorView) -> EditorView {
    EditorView { cursor: c, ..v }
}

/// The selection anchor as a movement leaves it: dropped (with a redraw)
/// when the movement does not select, set at the cursor when it starts a
/// selection.
pub open spec fn anchor_for(v: EditorView, with_selection: bool) -> EditorView {
    if !with_selection && v.cursor.anchor is Some {
        EditorView { needs_full_rerender: true, cursor: CursorView { anchor: None, ..v.cursor }, ..v }
    } else if with_selection && v.cursor.anchor is None {
        EditorView { cursor: CursorView { anchor: Some(v.cursor.cur), ..v.cursor }, ..v }
    } else {
        v
    }
}

/// Movements whose target the document works out.
pub open spec fn needs_document(m: CursorMovement) -> bool {
    m is NextWordEnd || m is PreviousWordStart || m is NextParagraph || m is PreviousParagraph
        || m is MatchingParenthesis || m is NextOccurrenceOf || m is PreviousOccurrenceOf
}

pub open spec fn sat_add(a: usize, b: usize) -> usize {
    if a + b > usize::MAX { usize::MAX } else { (a + b) as usize }
}

pub open spec fn sat_sub_usize(a: usize, b: usize) -> usize {
    if a < b { 0 } else { (a - b) as usize }
}

/// Where a movement that does not search the document takes the cursor,
/// in a document of `n_lines` lines.
pub open spec fn moved_cursor(c: CursorView, movement: CursorMovement, n_lines: usize) -> CursorView {
    match movement {
        CursorMovement::AbsolutePos(p) => c.moved_to(p, false),
        CursorMovement::Up(n) => c.moved_to((c.ideal_x, sat_sub_usize(c.cur.1, n)), n > 1),
        CursorMovement::Down(n) => c.moved_to((c.ideal_x, sat_add(c.cur.1, n)), n > 1),
        CursorMovement::Left(n) => c.moved_to((sat_sub_usize(c.cur.0, n), c.cur.1), n > 1),
        CursorMovement::Right(n) => c.moved_to((sat_add(c.cur.0, n), c.cur.1), n > 1),
        CursorMovement::StartOfLine => c.moved_to((0, c.cur.1), false),
        CursorMovement::EndOfLine => c.moved_to((usize::MAX, c.cur.1), false),
        CursorMovement::StartOfFile => c.moved_to((0, 0), false),
        CursorMovement::EndOfFile => c.moved_to((0, n_lines), false),
        CursorMovement::NextJump => c.jumped_forward(),
        CursorMovement::PreviousJump => c.jumped_back(),
        _ => c,
    }
}

/// Moving the cursor; movements that search the document ask for it.
pub open spec fn movement_step(v: EditorView, movement: CursorMovement, with_selection: bool) -> Step {
    let v = anchor_for(v, with_selection);
    if needs_document(movement) {
        request(v, ActionView::Locate(movement))
    } else {
        proceed(with_cursor(v, moved_cursor(v.cursor, movement, v.lines.len() as usize)))
    }
}

/// Where the document said a movement goes: paragraph moves always redraw;
/// a found position becomes the cursor's.
pub open spec fn movement_found(v: EditorView, movement: CursorMovement, found: Option<Pos>) -> EditorView {
    let v = if movement is NextParagraph || movement is PreviousParagraph {
        EditorView { needs_full_rerender: true, ..v }
    } else {
        v
    };
    match found {
        Some(p) => with_cursor(v, v.cursor.moved_to(p, false)),
        None => v,
    }
}

impl Editor {
    fn anchor_selection(&mut self, with_selection: bool)
        requires
            old(self).wf(),
        ensures
            final(self).wf(),
            final(self)@ == anchor_for(old(self)@, with_selection),
    {
        if !with_selection && self.cursor.selection_anchor.is_some() {
            self.needs_full_rerender = true;
            self.cursor.selection_anchor = None;
        } else if with_selection && self.cursor.selection_anchor.is_none() {
            self.cursor.selection_anchor = Some(self.cursor.pos());
        }
    }

    /// Moves the cursor as `movement` says, starting or dropping the
    /// selection; for movements that search the document, asks for the
    /// target.
    pub fn execute_cursor_movement_command(&mut self, movement: CursorMovement, with_selection: bool) -> (r: Option<EditorAction>)
        requires
            old(self).wf(),
        ensures
            final(self).wf(),
            (final(self)@, CommandExecutionResult::Continue, action_view(r))
                == movement_step(old(self)@, movement, with_selection),
    {
        self.anchor_selection(with_selection);
        let n_lines = self.document.n_lines();
        proof {
            assert(self@.lines.len() == n_lines);
        }
        if self.cursor.apply_movement(movement, n_lines) {
            None
        } else {
            Some(EditorAction::Locate(movement))
        }
    }

    /// Takes the document's answer for a movement that searched it.
    pub fn finish_movement(&mut self, movement: CursorMovement, found: Option<(usize, usize)>)
        requires
            old(self).wf(),
        ensures
            final(self).wf(),
            final(self)@ == movement_found(old(self)@, movement, found),
    {
        match movement {
            CursorMovement::NextParagraph | CursorMovement::PreviousParagraph => {
                self.needs_full_rerender = true;
            },
            _ => {},
        }
        match found {
            Some(pos) => self.cursor.update_pos(pos, false),
            None => {},
        }
    }

    /// Keeps the cursor within the document: at most the number of lines
    /// down, and at the ideal column limited to its line's length.
    pub fn clamp_cursor(&mut self)
        requires
            old(self).wf(),
        ensures
            final(self).wf(),
            final(self)@ == clamped(old(self)@),
    {
        let max_x = match self.document.get_line_len(self.cursor.cur_y) {
            Some(n) => n,
            None => 0,
        };
        proof {
            if self.cursor.cur_y < self.document.lines@.len() {
                assert(self@.lines[self.cursor.cur_y as int] == self.document.lines@[self.cursor.cur_y as int]@);
            }
        }
        let n_lines = self.document.n_lines();
        self.cursor.cur_x = if self.cursor.ideal_x <= max_x { self.cursor.ideal_x } else { max_x };
        self.cursor.cur_y = if self.cursor.cur_y <= n_lines { self.cursor.cur_y } else { n_lines };
    }

    /// Quits, or, with unsaved changes and confirmation on, warns once.
    pub fn quit(&mut self, force: bool) -> (r: CommandExecutionResult)
        ensures
            (final(self)@, r) == quit_step(old(self)@, force),
            final(self).cursor == old(self).cursor,
    {
        if !self.document.has_been_modified() || !self.config.confirm_quit_unsaved_changes
            || self.first_quit_sent || force {
            CommandExecutionResult::ShouldQuit
        } else {
            self.status_bar.update_notification(
                "\x1b[33mBuffer contains unsaved changes.\x1b[0m Ctrl-s: save, Ctrl-q: quit");
            self.first_quit_sent = true;
            CommandExecutionResult::Continue
        }
    }
}

impl Cursor {
    /// Carries out a movement that does not search the document, in a
    /// document of `n_lines` lines; says whether it could.
    pub fn apply_movement(&mut self, movement: CursorMovement, n_lines: usize) -> (done: bool)
        requires
            old(self)@.wf(),
        ensures
            final(self)@.wf(),
            done == !needs_document(movement),
            final(self)@ == (if done { moved_cursor(old(self)@, movement, n_lines) } else { old(self)@ }),
    {
        match movement {
            CursorMovement::AbsolutePos(pos) => self.update_pos(pos, false),
            CursorMovement::Up(lines) => self.move_up(lines),
            CursorMovement::Down(lines) => self.move_down(lines),
            CursorMovement::Left(cols) => self.move_left(cols),
            CursorMovement::Right(cols) => self.move_right(cols),
            CursorMovement::StartOfLine => {
                let y = self.cur_y;
                self.update_pos((0, y), false);
            },
            CursorMovement::EndOfLine => self.update_pos((usize::MAX, self.cur_y), false),
            CursorMovement::StartOfFile => self.update_pos((0, 0), false),
            CursorMovement::EndOfFile => self.update_pos((0, n_lines), false),
            CursorMovement::NextJump => self.jump_forward(),
            CursorMovement::PreviousJump => self.jump_back(),
            _ => {
                return false;
            },
        }
        true
    }
}

/// One line's share of the text between `from` and `to` (on different lines).
pub open spec fn line_piece(lines: Seq<Seq<char>>, idx: int, from: Pos, to: Pos) -> Seq<char> {
    let l = lines[idx];
    if idx == from.1 {
        l.subrange(from.0 as int, l.len() as int)
    } else if idx == to.1 {
        l.subrange(0, to.0 as int)
    } else {
        l
    }
}

/// The last line of a range that the document has.
pub open spec fn last_present(lines: Seq<Seq<char>>, to: Pos) -> int {
    if to.1 < lines.len() { to.1 as int } else { lines.len() - 1 }
}

/// The text between `from` and `to`: a string within one line, else the
/// lines of the range that exist, the first from `from` on, the last up to
/// `to`.
pub open spec fn selection_text(lines: Seq<Seq<char>>, from: Pos, to: Pos) -> TextView {
    if from.1 == to.1 {
        TextView::String(lines[from.1 as int].subrange(from.0 as int, to.0 as int))
    } else {
        let count: int = if from.1 < lines.len() { last_present(lines, to) - from.1 + 1 } else { 0 };
        TextView::Lines(Seq::new(count as nat, |k: int| line_piece(lines, from.1 + k, from, to)))
    }
}

/// The ranges whose text can be taken: within the lines' lengths.
pub open spec fn selection_readable(lines: Seq<Seq<char>>, from: Pos, to: Pos) -> bool {
    if from.1 == to.1 {
        from.1 < lines.len() && from.0 <= to.0 <= lines[from.1 as int].len()
    } else {
        &&& from.1 < to.1
        &&& (from.1 < lines.len() ==> from.0 <= lines[from.1 as int].len())
        &&& (to.1 < lines.len() ==> to.0 <= lines[to.1 as int].len())
    }
}

/// What copying or pasting `text` reports.
pub open spec fn count_notice(verb: Seq<char>, text: TextView) -> Option<Seq<char>> {
    match text {
        TextView::String(s) => Some(verb + " "@ + decimal_string(s.len()) + " characters"@),
        TextView::Lines(ls) => Some(verb + " "@ + decimal_string(ls.len()) + " lines"@),
        _ => None,
    }
}

/// Takes the text between `from` and `to` out of `lines`.
pub fn selection_text_of(lines: &Vec<Vec<char>>, from: (usize, usize), to: (usize, usize)) -> (t: Text)
    requires
        selection_readable(lines@.map_values(|l: Vec<char>| l@), from, to),
    ensures
        t@ == selection_text(lines@.map_values(|l: Vec<char>| l@), from, to),
{
    let ghost ls = lines@.map_values(|l: Vec<char>| l@);
    if from.1 == to.1 {
        assert(ls[from.1 as int] == lines@[from.1 as int]@);
        Text::String(slice_chars(lines[from.1].as_slice(), from.0, to.0))
    } else {
        let mut out: Vec<Vec<char>> = Vec::new();
        if from.1 < lines.len() {
            let n_lines = lines.len();
            let last = if to.1 < n_lines { to.1 } else { n_lines - 1 };
            let mut idx = from.1;
            while idx <= last
                invariant
                    from.1 <= idx <= last + 1,
                    last < n_lines,
                    n_lines == lines@.len(),
                    last == last_present(ls, to),
                    from.1 < to.1,
                    ls == lines@.map_values(|l: Vec<char>| l@),
                    selection_readable(ls, from, to),
                    out@.len() == idx - from.1,
                    forall|k: int| 0 <= k < out@.len() ==> #[trigger] out@[k]@ == line_piece(ls, from.1 + k, from, to),
                decreases last + 1 - idx,
            {
                let line = &lines[idx];
                assert(ls[idx as int] == line@);
                let piece = if idx == from.1 {
                    slice_chars(line.as_slice(), from.0, line.len())
                } else if idx == to.1 {
                    slice_chars(line.as_slice(), 0, to.0)
                } else {
                    slice_chars(line.as_slice(), 0, line.len())
                };
                out.push(piece);
                idx += 1;
            }
        }
        let t = Text::Lines(out);
        proof {
            let count: int = if from.1 < ls.len() { last_present(ls, to) - from.1 + 1 } else { 0 };
            assert(out@.map_values(|l: Vec<char>| l@) =~= Seq::new(count as nat, |k: int| line_piece(ls, from.1 + k, from, to)));
        }
        t
    }
}

/// "<verb> <n> characters" or "<verb> <n> lines" for a string or lines.
pub fn count_notice_of(verb: &str, text: &Text) -> (m: Option<Vec<char>>)
    ensures
        match count_notice(verb@, text@) {
            Some(n) => m matches Some(v) && v@ == n,
            None => m is None,
        },
{
    let (n, unit) = match text {
        Text::String(s) => (s.len(), " characters"),
        Text::Lines(ls) => (ls.len(), " lines"),
        _ => {
            return None;
        },
    };
    let mut m = chars_of(verb);
    push_str(&mut m, " ");
    let digits = usize_chars(n);
    push_chars(&mut m, digits.as_slice());
    push_str(&mut m, unit);
    proof {
        reveal_strlit(" characters");
        reveal_strlit(" lines");
    }
    Some(m)
}

/// The choices after the selected one is taken out (the last one takes its place).
pub open spec fn without_choice(choices: Seq<Seq<char>>, i: int) -> Seq<Seq<char>> {
    choices.update(i, choices.last()).drop_last()
}

/// The unwritten rest of the selected choice, and the choices left.
pub open spec fn taken_choice(v: EditorView) -> (Seq<char>, Seq<Seq<char>>) {
    let i = v.selected_choice as int;
    if i < v.choices.len() {
        (v.choices[i].subrange(v.written_offset as int, v.choices[i].len() as int), without_choice(v.choices, i))
    } else {
        (Seq::empty(), v.choices)
    }
}

pub open spec fn no_match_notice(forward: bool) -> Seq<char> {
    if forward { "Already at last match"@ } else { "Already at first match"@ }
}

/// Searching for the characters `x_from` to `x_to` (inclusive) of the
/// cursor's line from the cursor.
pub open spec fn literal_search(v: EditorView, x_from: usize, x_to: usize, forward: bool) -> Step {
    if v.cursor.cur.1 < v.lines.len() {
        request(v, ActionView::FindLiteral {
            origin: v.cursor.cur,
            literal: v.lines[v.cursor.cur.1 as int].subrange(x_from as int, x_to + 1),
            forward,
        })
    } else {
        request(v, ActionView::Notify(no_match_notice(forward)))
    }
}

pub open spec fn literal_readable(v: EditorView, x_from: usize, x_to: usize) -> bool {
    v.cursor.cur.1 < v.lines.len() ==> x_from <= x_to + 1 <= v.lines[v.cursor.cur.1 as int].len()
}

/// Finding the next or previous match of the selection (on one line) or,
/// without a selection, of the word at the cursor.
pub open spec fn find_step(v: EditorView, forward: bool) -> Step {
    match v.cursor.selected_range() {
        Some((from, to)) => {
            let v1 = EditorView { cursor: CursorView { anchor: None, ..v.cursor }, ..v };
            if from.1 != to.1 {
                request(v1, ActionView::Notify("Can't yet match across lines"@))
            } else {
                literal_search(v1, from.0, to.0, forward)
            }
        },
        None => request(v, ActionView::FindWordAt { pos: v.cursor.cur, forward }),
    }
}

pub open spec fn is_typing(op: EditView) -> bool {
    op matches EditView::Insertion { text: TextView::Char(_), .. }
}

/// Copying (and, for `cut`, removing) the selection.
pub open spec fn yank_step(v: EditorView, cut: bool) -> Step {
    match v.cursor.selected_range() {
        None => proceed(v),
        Some((from, to)) => {
            let text = selection_text(v.lines, from, to);
            let notice = count_notice("Yanked"@, text)->0;
            if cut {
                request(
                    with_cursor(v, CursorView { anchor: None, ..v.cursor }.moved_to(from, false)),
                    ActionView::Yank {
                        text,
                        notice,
                        cut: Some(EditView::Replacement { pos_from: from, pos_to: to, text: TextView::Empty }),
                    },
                )
            } else {
                request(v, ActionView::Yank { text, notice, cut: None })
            }
        },
    }
}

/// Insert mode's commands.
pub open spec fn insert_step(v: EditorView, c: CommandView) -> Step {
    match c {
        CommandView::AutocompleteDisplay => proceed(EditorView { is_autocomplete_open: true, ..v }),
        CommandView::AutocompleteNext => proceed(EditorView { selected_choice: (v.selected_choice + 1) as usize, ..v }),
        CommandView::AutocompletePrevious => proceed(EditorView { selected_choice: sat_sub_usize(v.selected_choice, 1), ..v }),
        CommandView::AutocompleteInsert => request(
            EditorView {
                choices: taken_choice(v).1,
                first_quit_sent: false,
                cursor: CursorView { anchor: None, ..v.cursor },
                is_autocomplete_open: false,
                ..v
            },
            ActionView::ApplyEdit {
                op: EditView::Insertion { pos: v.cursor.cur, text: TextView::String(taken_choice(v).0) },
                is_typing: false,
            },
        ),
        CommandView::SwitchMode(m) => proceed(EditorView { mode: m, ..v }),
        CommandView::OpenCommandLine => proceed(EditorView {
            mode: EditorMode::Prompt("> "),
            submit_action: Some(SubmitAction::CommandLine),
            ..v
        }),
        CommandView::PromptExecutor => proceed(EditorView {
            mode: EditorMode::Prompt("Run with: "),
            submit_action: Some(SubmitAction::RunWith),
            ..v
        }),
        CommandView::Paste => request(v, ActionView::Paste),
        CommandView::YankSelection => yank_step(v, false),
        CommandView::CutSelection => yank_step(v, true),
        CommandView::ClearSelection => proceed(EditorView {
            is_autocomplete_open: false,
            is_selection_locked: false,
            needs_full_rerender: true,
            cursor: CursorView { anchor: None, ..v.cursor },
            matched_range: None,
            search_item: None,
            ..v
        }),
        CommandView::Edit(op) => request(v, ActionView::ApplyEdit { op, is_typing: is_typing(op) }),
        CommandView::UndoLastEdit => request(v, ActionView::Undo),
        CommandView::RedoLastEdit => request(v, ActionView::Redo),
        CommandView::FindMatchForward => find_step(v, true),
        CommandView::FindMatchBackward => find_step(v, false),
        CommandView::ExecuteFile(k) => request(v, ActionView::ExecuteFile(k)),
        CommandView::ViewExecutionOutput => request(v, ActionView::ToggleExecutionOutput),
        _ => proceed(v),
    }
}

/// Where insert mode's commands stay within bounds.
pub open spec fn insert_defined(v: EditorView, c: CommandView) -> bool {
    &&& (c is AutocompleteNext ==> v.selected_choice < usize::MAX)
    &&& (c is AutocompleteInsert && v.selected_choice < v.choices.len()
        ==> v.written_offset <= v.choices[v.selected_choice as int].len())
    &&& ((c is YankSelection || c is CutSelection) ==> (v.cursor.selected_range() matches Some((from, to))
        ==> selection_readable(v.lines, from, to)))
    &&& ((c is FindMatchForward || c is FindMatchBackward) ==> (v.cursor.selected_range() matches Some((from, to))
        ==> from.1 != to.1 || literal_readable(v, from.0, to.0)))
}

impl Editor {
    fn literal_search(&mut self, x_from: usize, x_to: usize, forward: bool) -> (r: Option<EditorAction>)
        requires
            literal_readable(old(self)@, x_from, x_to),
        ensures
            (final(self)@, CommandExecutionResult::Continue, action_view(r))
                == literal_search(old(self)@, x_from, x_to, forward),
    {
        let y = self.cursor.cur_y;
        if y < self.document.lines.len() {
            let line = &self.document.lines[y];
            proof {
                assert(self@.lines[y as int] == line@);
            }
            let n = line.len();
            assert(x_to + 1 <= n);
            let literal = slice_chars(line.as_slice(), x_from, x_to + 1);
            Some(EditorAction::FindLiteral { origin: self.cursor.pos(), literal, forward })
        } else {
            let m = if forward { chars_of("Already at last match") } else { chars_of("Already at first match") };
            Some(EditorAction::Notify(m))
        }
    }

    fn find_match(&mut self, forward: bool) -> (r: Option<EditorAction>)
        requires
            old(self).cursor@.selected_range() matches Some((from, to))
                ==> from.1 != to.1 || literal_readable(old(self)@, from.0, to.0),
        ensures
            (final(self)@, CommandExecutionResult::Continue, action_view(r)) == find_step(old(self)@, forward),
    {
        match self.cursor.get_selected_range() {
            Some((pos_from, pos_to)) => {
                self.cursor.selection_anchor = None;
                if pos_from.1 != pos_to.1 {
                    Some(EditorAction::Notify(chars_of("Can't yet match across lines")))
                } else {
                    self.literal_search(pos_from.0, pos_to.0, forward)
                }
            },
            None => Some(EditorAction::FindWordAt { pos: self.cursor.pos(), forward }),
        }
    }

    /// Takes the bounds of the word at the cursor, as the document found
    /// them, and searches for the word.
    pub fn find_word_match(&mut self, word: Option<(usize, usize)>, forward: bool) -> (r: Option<EditorAction>)
        requires
            word matches Some((a, b)) ==> literal_readable(old(self)@, a, b),
        ensures
            match word {
                Some((a, b)) => (final(self)@, CommandExecutionResult::Continue, action_view(r))
                    == literal_search(old(self)@, a, b, forward),
                None => final(self)@ == old(self)@ && r is None,
            },
    {
        match word {
            Some((x_from, x_to)) => self.literal_search(x_from, x_to, forward),
            None => None,
        }
    }

    /// Takes the match that a literal search found: the cursor goes to its
    /// start and it is highlighted; without one, tells so.
    pub fn finish_find(&mut self, found: Option<((usize, usize), (usize, usize))>, forward: bool) -> (r: Option<EditorAction>)
        requires
            old(self).wf(),
        ensures
            final(self).wf(),
            match found {
                Some((start, end)) => final(self)@ == EditorView {
                    matched_range: Some((start, end)),
                    cursor: old(self)@.cursor.moved_to(start, false),
                    ..old(self)@
                } && r is None,
                None => final(self)@ == old(self)@ && action_view(r) == Some(ActionView::Notify(no_match_notice(forward))),
            },
    {
        match found {
            Some((start, end)) => {
                self.matched_range = Some((start, end));
                self.cursor.update_pos(start, false);
                None
            },
            None => {
                let m = if forward { chars_of("Already at last match") } else { chars_of("Already at first match") };
                Some(EditorAction::Notify(m))
            },
        }
    }

    fn yank(&mut self, cut: bool) -> (r: Option<EditorAction>)
        requires
            old(self).wf(),
            old(self).cursor@.selected_range() matches Some((from, to)) ==> selection_readable(old(self)@.lines, from, to),
        ensures
            final(self).wf(),
            (final(self)@, CommandExecutionResult::Continue, action_view(r)) == yank_step(old(self)@, cut),
    {
        match self.cursor.get_selected_range() {
            None => None,
            Some((pos_from, pos_to)) => {
                let text = selection_text_of(&self.document.lines, pos_from, pos_to);
                let notice = match count_notice_of("Yanked", &text) {
                    Some(m) => m,
                    None => Vec::new(),
                };
                if cut {
                    self.cursor.selection_anchor = None;
                    self.cursor.update_pos(pos_from, false);
                    let op = EditOperation::Replacement { pos_from, pos_to, text: Text::Empty };
                    Some(EditorAction::Yank { text, notice, cut: Some(op) })
                } else {
                    Some(EditorAction::Yank { text, notice, cut: None })
                }
            },
        }
    }

    fn insert_selected_choice(&mut self) -> (r: Option<EditorAction>)
        requires
            old(self).autocomplete.selected_idx < old(self).autocomplete.choices@.len()
                ==> old(self).autocomplete.written_offset
                    <= old(self).autocomplete.choices@[old(self).autocomplete.selected_idx as int]@.len(),
        ensures
            (final(self)@, CommandExecutionResult::Continue, action_view(r))
                == insert_step(old(self)@, CommandView::AutocompleteInsert),
    {
        let ghost v = self@;
        let ghost before = self.autocomplete.choices@;
        let word = self.autocomplete.get_selected_choice();
        proof {
            let i = v.selected_choice as int;
            if i < before.len() {
                assert(self.autocomplete.choices@.map_values(|c: Vec<char>| c@)
                    =~= without_choice(before.map_values(|c: Vec<char>| c@), i));
            }
        }
        let op = EditOperation::Insertion { pos: self.cursor.pos(), text: Text::String(word) };
        self.first_quit_sent = false;
        self.cursor.selection_anchor = None;
        self.is_autocomplete_open = false;
        Some(EditorAction::ApplyEdit { op, is_typing: false })
    }

    /// Carries out a command in insert mode.
    pub fn insert_mode_execute_command(&mut self, command: EditorCommand) -> (r: (CommandExecutionResult, Option<EditorAction>))
        requires
            old(self).wf(),
            insert_defined(old(self)@, command@),
        ensures
            final(self).wf(),
            (final(self)@, r.0, action_view(r.1)) == insert_step(old(self)@, command@),
    {
        let a = match command {
            EditorCommand::AutocompleteDisplay => {
                self.is_autocomplete_open = true;
                None
            },
            EditorCommand::AutocompleteNext => {
                self.autocomplete.selected_idx += 1;
                None
            },
            EditorCommand::AutocompletePrevious => {
                self.autocomplete.selected_idx = self.autocomplete.selected_idx.saturating_sub(1);
                None
            },
            EditorCommand::AutocompleteInsert => self.insert_selected_choice(),
            EditorCommand::SwitchMode(mode) => {
                self.mode = mode;
                None
            },
            EditorCommand::OpenCommandLine => {
                self.prompt_user("> ", SubmitAction::CommandLine);
                None
            },
            EditorCommand::PromptExecutor => {
                self.prompt_user("Run with: ", SubmitAction::RunWith);
                None
            },
            EditorCommand::Paste => Some(EditorAction::Paste),
            EditorCommand::YankSelection => self.yank(false),
            EditorCommand::CutSelection => self.yank(true),
            EditorCommand::ClearSelection => {
                self.is_autocomplete_open = false;
                self.is_selection_locked = false;
                self.needs_full_rerender = true;
                self.cursor.selection_anchor = None;
                self.matched_range = None;
                self.search_item = None;
                None
            },
            EditorCommand::Edit(op) => {
                let typing = match &op {
                    EditOperation::Insertion { text: Text::Char(_), .. } => true,
                    _ => false,
                };
                Some(EditorAction::ApplyEdit { op, is_typing: typing })
            },
            EditorCommand::UndoLastEdit => Some(EditorAction::Undo),
            EditorCommand::RedoLastEdit => Some(EditorAction::Redo),
            EditorCommand::FindMatchForward => self.find_match(true),
            EditorCommand::FindMatchBackward => self.find_match(false),
            EditorCommand::ExecuteFile(key) => Some(EditorAction::ExecuteFile(key)),
            EditorCommand::ViewExecutionOutput => Some(EditorAction::ToggleExecutionOutput),
            _ => None,
        };
        (CommandExecutionResult::Continue, a)
    }

    /// Asks for a line in the prompt; `action` says what happens with it.
    pub fn prompt_user(&mut self, prompt: &'static str, action: SubmitAction)
        ensures
            final(self)@ == (EditorView { mode: EditorMode::Prompt(prompt), submit_action: Some(action), ..old(self)@ }),
    {
        self.mode = EditorMode::Prompt(prompt);
        self.status_bar.submit_action = Some(action);
    }
}

/// After the document applied an edit (or undid or redid one) and put the
/// cursor at `new_pos`: the cursor goes there, the selection is dropped, the
/// quit warning must be shown again; typing on the same line keeps going.
pub open spec fn edit_finished(v: EditorView, new_pos: Option<Pos>, typing: bool) -> (EditorView, bool) {
    let (c, typing) = match new_pos {
        Some(p) => (v.cursor.moved_to(p, false), typing && p.1 == v.cursor.cur.1),
        None => (v.cursor, typing),
    };
    (EditorView { cursor: CursorView { anchor: None, ..c }, first_quit_sent: false, ..v }, typing)
}

/// Pasting `text`: over the selection if there is one, else at the cursor.
pub open spec fn paste_edit(v: EditorView, text: TextView) -> EditView {
    match v.cursor.selected_range() {
        Some((from, to)) => EditView::Replacement { pos_from: from, pos_to: to, text },
        None => EditView::Insertion { pos: v.cursor.cur, text },
    }
}

/// The prompt line's commands.
pub open spec fn prompt_step(v: EditorView, c: CommandView) -> Step {
    match c {
        CommandView::MovePromptCursorLeft => proceed(EditorView { prompt_cursor: sat_sub_usize(v.prompt_cursor, 1), ..v }),
        CommandView::MovePromptCursorRight => proceed(EditorView {
            prompt_cursor: if v.prompt_cursor + 1 <= v.prompt_line.len() { (v.prompt_cursor + 1) as usize } else { v.prompt_line.len() as usize },
            ..v
        }),
        CommandView::InsertCharPrompt { pos_x, ch } => proceed(EditorView {
            prompt_line: v.prompt_line.insert(pos_x as int, ch),
            prompt_cursor: (pos_x + 1) as usize,
            ..v
        }),
        CommandView::DeleteCharPrompt { pos_x } => if pos_x == 0 {
            proceed(v)
        } else {
            proceed(EditorView {
                prompt_line: v.prompt_line.remove(pos_x - 1),
                prompt_cursor: (pos_x - 1) as usize,
                ..v
            })
        },
        CommandView::SwitchMode(m) => proceed(EditorView { mode: m, ..v }),
        CommandView::SubmitPrompt => {
            let v1 = EditorView { prompt_line: Seq::empty(), submit_action: None, ..v };
            match v.submit_action {
                Some(a) => request(v1, ActionView::Submit { action: a, prompt: v.prompt_line }),
                None => proceed(EditorView { mode: EditorMode::Insert, ..v1 }),
            }
        },
        _ => proceed(v),
    }
}

pub open spec fn prompt_defined(v: EditorView, c: CommandView) -> bool {
    &&& (c is MovePromptCursorRight ==> v.prompt_cursor < usize::MAX)
    &&& (c matches CommandView::InsertCharPrompt { pos_x, .. } ==> pos_x <= v.prompt_line.len() && pos_x < usize::MAX)
    &&& (c matches CommandView::DeleteCharPrompt { pos_x } ==> pos_x <= v.prompt_line.len())
}

pub open spec fn edits_prompt(c: CommandView) -> bool {
    c is InsertCharPrompt || c is DeleteCharPrompt || c is MovePromptCursorLeft || c is MovePromptCursorRight
}

/// Goto mode: the cursor follows the line number typed so far (counted
/// from one); submitting records the starting point as a jump; leaving by
/// another mode returns the cursor to the starting point.
pub open spec fn goto_step(v: EditorView, c: CommandView, original: Pos) -> Step {
    if edits_prompt(c) {
        let v1 = prompt_step(v, c).0;
        match parse_unsigned(v1.prompt_line, usize::MAX as int) {
            Some(n) => if n > 0 {
                proceed(EditorView { cursor: v1.cursor.moved_to((0, (n - 1) as usize), false), needs_full_rerender: true, ..v1 })
            } else {
                proceed(v1)
            },
            None => proceed(v1),
        }
    } else {
        match c {
            CommandView::SubmitPrompt => proceed(EditorView {
                prompt_line: Seq::empty(),
                mode: EditorMode::Insert,
                needs_full_rerender: true,
                cursor: v.cursor.jump_recorded(original),
                ..v
            }),
            CommandView::SwitchMode(m) => proceed(EditorView {
                prompt_line: Seq::empty(),
                cursor: v.cursor.moved_to(original, false),
                mode: m,
                search_item: None,
                needs_full_rerender: true,
                ..v
            }),
            _ => proceed(v),
        }
    }
}

/// Search mode: each edit of the prompt searches again from the starting
/// point, as a regex when the line is one, else literally; `Ctrl-n` and
/// `Ctrl-b` go on from the cursor; submitting records the starting point.
pub open spec fn search_step(v: EditorView, c: CommandView, original: Pos, backwards: bool) -> Step {
    match c {
        CommandView::SubmitPrompt => proceed(EditorView {
            search_item: None,
            prompt_line: Seq::empty(),
            mode: EditorMode::Insert,
            needs_full_rerender: true,
            cursor: v.cursor.jump_recorded(original),
            ..v
        }),
        CommandView::MovePromptCursorLeft | CommandView::MovePromptCursorRight => prompt_step(v, c),
        CommandView::InsertCharPrompt { .. } | CommandView::DeleteCharPrompt { .. } => {
            let v1 = prompt_step(v, c).0;
            request(v1, ActionView::Search {
                origin: original,
                backwards,
                regex: if regex_accepts(v1.prompt_line) { Some(v1.prompt_line) } else { None },
            })
        },
        CommandView::FindMatchForward => if v.search_item is Some {
            request(v, ActionView::SearchAgain { origin: v.cursor.cur, backwards: false })
        } else {
            proceed(v)
        },
        CommandView::FindMatchBackward => if v.search_item is Some {
            request(v, ActionView::SearchAgain { origin: v.cursor.cur, backwards: true })
        } else {
            proceed(v)
        },
        _ => goto_step(v, c, original),
    }
}

/// A match found by a search: the cursor goes to its start, it is
/// highlighted, and the screen is redrawn.
pub open spec fn match_found(v: EditorView, found: Option<(Pos, Pos)>) -> EditorView {
    match found {
        Some((start, end)) => EditorView {
            needs_full_rerender: true,
            cursor: v.cursor.moved_to(start, false),
            matched_range: Some((start, end)),
            ..v
        },
        None => v,
    }
}

impl Editor {
    /// Takes where the document left the cursor after an edit, undo or
    /// redo; says whether completions for the word being typed are due.
    pub fn finish_edit(&mut self, new_pos: Option<(usize, usize)>, is_typing: bool) -> (typing: bool)
        requires
            old(self).wf(),
        ensures
            final(self).wf(),
            (final(self)@, typing) == edit_finished(old(self)@, new_pos, is_typing),
    {
        let mut typing = is_typing;
        match new_pos {
            Some(pos) => {
                if pos.1 != self.cursor.cur_y {
                    typing = false;
                }
                self.cursor.update_pos(pos, false);
            },
            None => {},
        }
        self.first_quit_sent = false;
        self.cursor.selection_anchor = None;
        typing
    }

    /// The characters from `prefix_start_idx` to the cursor on its line: the
    /// part of the word typed so far.
    pub fn autocomplete_prefix(&self, prefix_start_idx: usize) -> (p: Vec<char>)
        requires
            self.cursor.cur_y < self.document.line_count(),
            prefix_start_idx <= self.cursor.cur_x <= self.document.lines@[self.cursor.cur_y as int]@.len(),
        ensures
            p@ == self@.lines[self.cursor.cur_y as int].subrange(prefix_start_idx as int, self.cursor.cur_x as int),
    {
        let line = &self.document.lines[self.cursor.cur_y];
        proof {
            assert(self@.lines[self.cursor.cur_y as int] == line@);
        }
        slice_chars(line.as_slice(), prefix_start_idx, self.cursor.cur_x)
    }

    /// Opens the completions for the word that starts at `prefix_start_idx`,
    /// offering `words` (those of the document that start with the prefix).
    pub fn update_autocomplete_choices(&mut self, prefix_start_idx: usize, words: Vec<Vec<char>>)
        requires
            prefix_start_idx <= old(self).cursor.cur_x,
        ensures
            final(self)@ == (EditorView {
                is_autocomplete_open: true,
                selected_choice: 0,
                written_offset: (old(self).cursor.cur_x - prefix_start_idx) as usize,
                choices: words@.map_values(|c: Vec<char>| c@),
                ..old(self)@
            }),
    {
        self.is_autocomplete_open = true;
        self.autocomplete.selected_idx = 0;
        self.autocomplete.written_offset = self.cursor.cur_x - prefix_start_idx;
        self.autocomplete.choices = words;
    }

    /// Pastes `text` from the clipboard: gives the report to show and the
    /// edit to apply (then `finish_paste`); the selection is dropped.
    pub fn paste_text(&mut self, text: Text) -> (r: (Option<Vec<char>>, EditOperation))
        ensures
            final(self)@ == (EditorView { cursor: CursorView { anchor: None, ..old(self)@.cursor }, ..old(self)@ }),
            r.1@ == paste_edit(old(self)@, text@),
            match count_notice("Pasted"@, text@) {
                Some(n) => r.0 matches Some(m) && m@ == n,
                None => r.0 is None,
            },
    {
        let notice = count_notice_of("Pasted", &text);
        let edit = match self.cursor.get_selected_range() {
            Some((pos_from, pos_to)) => EditOperation::Replacement { pos_from, pos_to, text },
            None => EditOperation::Insertion { pos: self.cursor.pos(), text },
        };
        self.cursor.selection_anchor = None;
        (notice, edit)
    }

    /// Takes where the document left the cursor after a paste.
    pub fn finish_paste(&mut self, new_pos: Option<(usize, usize)>)
        requires
            old(self).wf(),
        ensures
            final(self).wf(),
            final(self)@ == (match new_pos {
                Some(p) => with_cursor(old(self)@, old(self)@.cursor.moved_to(p, false)),
                None => old(self)@,
            }),
    {
        match new_pos {
            Some(pos) => self.cursor.update_pos(pos, false),
            None => {},
        }
    }

    /// Carries out a command on the prompt line.
    pub fn prompt_mode_execute_command(&mut self, command: EditorCommand) -> (r: (CommandExecutionResult, Option<EditorAction>))
        requires
            prompt_defined(old(self)@, command@),
        ensures
            final(self).cursor == old(self).cursor,
            (final(self)@, r.0, action_view(r.1)) == prompt_step(old(self)@, command@),
    {
        let a = match command {
            EditorCommand::MovePromptCursorLeft => {
                self.status_bar.cursor_pos = self.status_bar.cursor_pos.saturating_sub(1);
                None
            },
            EditorCommand::MovePromptCursorRight => {
                let n = self.status_bar.prompt_line.len();
                let next = self.status_bar.cursor_pos + 1;
                self.status_bar.cursor_pos = if next <= n { next } else { n };
                None
            },
            EditorCommand::InsertCharPrompt { pos_x, ch } => {
                self.status_bar.insert_char(pos_x, ch);
                None
            },
            EditorCommand::DeleteCharPrompt { pos_x } => {
                if pos_x > 0 {
                    self.status_bar.delete_char_before(pos_x);
                }
                None
            },
            EditorCommand::SwitchMode(mode) => {
                self.mode = mode;
                None
            },
            EditorCommand::SubmitPrompt => {
                let (prompt, taken) = self.status_bar.take_prompt();
                match taken {
                    Some(action) => Some(EditorAction::Submit { action, prompt }),
                    None => {
                        self.mode = EditorMode::Insert;
                        None
                    },
                }
            },
            _ => None,
        };
        (CommandExecutionResult::Continue, a)
    }

    /// Takes what running a submitted prompt line gave: unless it asks to
    /// quit, the editor returns to insert mode.
    pub fn finish_submit(&mut self, result: CommandExecutionResult) -> (r: CommandExecutionResult)
        ensures
            r == result,
            final(self)@ == (if result == CommandExecutionResult::Continue {
                EditorView { mode: EditorMode::Insert, ..old(self)@ }
            } else {
                old(self)@
            }),
    {
        if result == CommandExecutionResult::Continue {
            self.mode = EditorMode::Insert;
        }
        result
    }

    /// Carries out a command in goto mode, started at `original_pos`.
    pub fn goto_mode_execute_command(&mut self, command: EditorCommand, original_pos: (usize, usize)) -> (r: (CommandExecutionResult, Option<EditorAction>))
        requires
            old(self).wf(),
            prompt_defined(old(self)@, command@),
        ensures
            final(self).wf(),
            (final(self)@, r.0, action_view(r.1)) == goto_step(old(self)@, command@, original_pos),
    {
        match command {
            EditorCommand::InsertCharPrompt { .. } | EditorCommand::DeleteCharPrompt { .. }
            | EditorCommand::MovePromptCursorLeft | EditorCommand::MovePromptCursorRight => {
                self.prompt_mode_execute_command(command);
                match parse_unsigned_chars(self.status_bar.prompt_line.as_slice(), usize::MAX as u64) {
                    Some(line_num) => {
                        if line_num > 0 {
                            self.cursor.update_pos((0, (line_num - 1) as usize), false);
                            self.needs_full_rerender = true;
                        }
                    },
                    None => {},
                }
                (CommandExecutionResult::Continue, None)
            },
            EditorCommand::SubmitPrompt => {
                self.status_bar.prompt_line.clear();
                self.mode = EditorMode::Insert;
                self.needs_full_rerender = true;
                self.cursor.record_jump(original_pos);
                (CommandExecutionResult::Continue, None)
            },
            EditorCommand::SwitchMode(mode) => {
                self.status_bar.prompt_line.clear();
                self.cursor.update_pos(original_pos, false);
                self.mode = mode;
                self.search_item = None;
                self.needs_full_rerender = true;
                (CommandExecutionResult::Continue, None)
            },
            _ => (CommandExecutionResult::Continue, None),
        }
    }

    /// Carries out a command in search mode, started at `original_pos`.
    pub fn search_mode_execute_command(&mut self, command: EditorCommand, original_pos: (usize, usize), is_backwards: bool) -> (r: (CommandExecutionResult, Option<EditorAction>))
        requires
            old(self).wf(),
            prompt_defined(old(self)@, command@),
        ensures
            final(self).wf(),
            (final(self)@, r.0, action_view(r.1)) == search_step(old(self)@, command@, original_pos, is_backwards),
    {
        match command {
            EditorCommand::SubmitPrompt => {
                self.search_item = None;
                self.status_bar.prompt_line.clear();
                self.mode = EditorMode::Insert;
                self.needs_full_rerender = true;
                self.cursor.record_jump(original_pos);
                (CommandExecutionResult::Continue, None)
            },
            EditorCommand::MovePromptCursorLeft | EditorCommand::MovePromptCursorRight => {
                self.prompt_mode_execute_command(command)
            },
            EditorCommand::InsertCharPrompt { .. } | EditorCommand::DeleteCharPrompt { .. } => {
                self.prompt_mode_execute_command(command);
                let item = match compile_regex(&self.status_bar.prompt_line) {
                    Some(regex) => SearchItem::Regex(regex),
                    None => SearchItem::PromptString,
                };
                (CommandExecutionResult::Continue, Some(EditorAction::Search { origin: original_pos, backwards: is_backwards, item }))
            },
            EditorCommand::FindMatchForward => {
                if self.search_item.is_some() {
                    (CommandExecutionResult::Continue, Some(EditorAction::SearchAgain { origin: self.cursor.pos(), backwards: false }))
                } else {
                    (CommandExecutionResult::Continue, None)
                }
            },
            EditorCommand::FindMatchBackward => {
                if self.search_item.is_some() {
                    (CommandExecutionResult::Continue, Some(EditorAction::SearchAgain { origin: self.cursor.pos(), backwards: true }))
                } else {
                    (CommandExecutionResult::Continue, None)
                }
            },
            _ => self.goto_mode_execute_command(command, original_pos),
        }
    }

    /// Takes the match that searching for the prompt line found, and the
    /// item searched for, which becomes the current one when it matched.
    pub fn finish_incremental_search(&mut self, found: Option<((usize, usize), (usize, usize))>, item: SearchItem)
        requires
            old(self).wf(),
        ensures
            final(self).wf(),
            final(self)@ == (match found {
                Some(_) => EditorView { search_item: Some(item), ..match_found(old(self)@, found) },
                None => old(self)@,
            }),
    {
        match found {
            Some((start, end)) => {
                self.needs_full_rerender = true;
                self.cursor.update_pos(start, false);
                self.matched_range = Some((start, end));
                self.search_item = Some(item);
            },
            None => {},
        }
    }

    /// Takes the match that searching again found.
    pub fn finish_search_again(&mut self, found: Option<((usize, usize), (usize, usize))>)
        requires
            old(self).wf(),
        ensures
            final(self).wf(),
            final(self)@ == match_found(old(self)@, found),
    {
        match found {
            Some((start, end)) => {
                self.needs_full_rerender = true;
                self.cursor.update_pos(start, false);
                self.matched_range = Some((start, end));
            },
            None => {},
        }
    }
}

/// What is shown when a run of the file ends.
pub open spec fn execution_end_notice(status: Seq<char>, output_available: bool) -> Seq<char> {
    status + ". "@ + (if output_available { "Ctrl-k + v + o: view output"@ } else { "output unavailable"@ })
}

pub open spec fn popup_of(c: CommandView) -> Option<Popup> {
    match c {
        CommandView::DisplayHelp => Some(Popup::Help),
        CommandView::DisplayChordsHelp => Some(Popup::Chords),
        CommandView::DisplayLineChordHelp => Some(Popup::LineChord),
        CommandView::DisplayExecuteChordHelp => Some(Popup::ExecuteChord),
        CommandView::DisplayViewChordHelp => Some(Popup::ViewChord),
        CommandView::DisplaySelectionChordHelp => Some(Popup::SelectionChord),
        CommandView::DisplayPressCharacterPopup => Some(Popup::PressCharacter),
        _ => None,
    }
}

/// The commands of the current mode.
pub open spec fn mode_step(v: EditorView, c: CommandView) -> Step {
    match v.mode {
        EditorMode::Insert => insert_step(v, c),
        EditorMode::Prompt(_) => prompt_step(v, c),
        EditorMode::Goto { original_cursor_pos } => goto_step(v, c, original_cursor_pos),
        EditorMode::Search { original_cursor_pos, is_backwards } => search_step(v, c, original_cursor_pos, is_backwards),
    }
}

/// Carrying out a command: the commands common to all modes, then those of
/// the current mode.
pub open spec fn step(v: EditorView, c: CommandView) -> Step {
    if popup_of(c) is Some {
        proceed(EditorView { popup: popup_of(c), ..v })
    } else {
        match c {
            CommandView::MoveCursor { movement, with_selection } => movement_step(v, movement, with_selection),
            CommandView::EndFileExecution(status, available) => proceed(EditorView {
                notification: execution_end_notice(status, available),
                is_running_external_command: false,
                ..v
            }),
            CommandView::DisplayMessage(m) => proceed(EditorView { notification: m, ..v }),
            CommandView::Quit => (quit_step(v, false).0, quit_step(v, false).1, None),
            CommandView::Save => request(v, ActionView::Save { display_notification: true }),
            CommandView::ToggleLockSelection => proceed(EditorView {
                needs_full_rerender: true,
                is_selection_locked: !v.is_selection_locked,
                ..v
            }),
            CommandView::ToggleLineNumbers => proceed(EditorView {
                needs_full_rerender: true,
                config: crate::config::ConfigView { show_line_numbers: !v.config.show_line_numbers, ..v.config },
                ..v
            }),
            CommandView::ScrollViewportUp => proceed(if v.viewport.top_line > 0 {
                EditorView { viewport: crate::viewport::Viewport { vertical_offset: (v.viewport.vertical_offset - 1) as isize, ..v.viewport }, ..v }
            } else {
                v
            }),
            CommandView::ScrollViewportDown => proceed(if v.viewport.top_line + v.ui.editor_lines < v.lines.len() {
                EditorView { viewport: crate::viewport::Viewport { vertical_offset: (v.viewport.vertical_offset + 1) as isize, ..v.viewport }, ..v }
            } else {
                v
            }),
            _ => mode_step(v, c),
        }
    }
}

/// The commands that stay within bounds where they are carried out.
pub open spec fn step_defined(v: EditorView, c: CommandView) -> bool {
    &&& v.cursor.wf()
    &&& (c is ScrollViewportUp ==> v.viewport.vertical_offset > isize::MIN)
    &&& (c is ScrollViewportDown ==> v.viewport.vertical_offset < isize::MAX
        && v.viewport.top_line + v.ui.editor_lines <= usize::MAX)
    &&& (v.mode is Insert ==> insert_defined(v, c))
    &&& (!(v.mode is Insert) ==> prompt_defined(v, c))
}

impl Editor {
    fn end_file_execution(&mut self, status: Vec<char>, output_available: bool)
        ensures
            final(self)@ == (EditorView {
                notification: execution_end_notice(status@, output_available),
                is_running_external_command: false,
                ..old(self)@
            }),
    {
        let mut m = status;
        push_str(&mut m, ". ");
        if output_available {
            push_str(&mut m, "Ctrl-k + v + o: view output");
        } else {
            push_str(&mut m, "output unavailable");
        }
        self.status_bar.notification = m;
        self.is_running_external_command = false;
    }

    fn mode_execute_command(&mut self, command: EditorCommand) -> (r: (CommandExecutionResult, Option<EditorAction>))
        requires
            step_defined(old(self)@, command@),
        ensures
            final(self).wf(),
            (final(self)@, r.0, action_view(r.1)) == mode_step(old(self)@, command@),
    {
        match self.mode {
            EditorMode::Insert => self.insert_mode_execute_command(command),
            EditorMode::Prompt(_) => self.prompt_mode_execute_command(command),
            EditorMode::Goto { original_cursor_pos } => self.goto_mode_execute_command(command, original_cursor_pos),
            EditorMode::Search { original_cursor_pos, is_backwards } =>
                self.search_mode_execute_command(command, original_cursor_pos, is_backwards),
        }
    }

    /// Carries out a command; gives whether to go on and the outside work
    /// it needs.
    #[verifier::rlimit(100)]
    #[verifier::spinoff_prover]
    pub fn execute_command(&mut self, command: EditorCommand) -> (r: (CommandExecutionResult, Option<EditorAction>))
        requires
            step_defined(old(self)@, command@),
        ensures
            final(self).wf(),
            (final(self)@, r.0, action_view(r.1)) == step(old(self)@, command@),
    {
        let c = CommandExecutionResult::Continue;
        match command {
            EditorCommand::DisplayHelp => {
                self.displayed_popup = Some(Popup::Help);
                (c, None)
            },
            EditorCommand::DisplayChordsHelp => {
                self.displayed_popup = Some(Popup::Chords);
                (c, None)
            },
            EditorCommand::DisplayLineChordHelp => {
                self.displayed_popup = Some(Popup::LineChord);
                (c, None)
            },
            EditorCommand::DisplayExecuteChordHelp => {
                self.displayed_popup = Some(Popup::ExecuteChord);
                (c, None)
            },
            EditorCommand::DisplayViewChordHelp => {
                self.displayed_popup = Some(Popup::ViewChord);
                (c, None)
            },
            EditorCommand::DisplaySelectionChordHelp => {
                self.displayed_popup = Some(Popup::SelectionChord);
                (c, None)
            },
            EditorCommand::DisplayPressCharacterPopup => {
                self.displayed_popup = Some(Popup::PressCharacter);
                (c, None)
            },
            EditorCommand::MoveCursor { movement, with_selection } =>
                (c, self.execute_cursor_movement_command(movement, with_selection)),
            EditorCommand::EndFileExecution(status, output_available) => {
                self.end_file_execution(status, output_available);
                (c, None)
            },
            EditorCommand::DisplayMessage(notification) => {
                self.status_bar.notification = notification;
                (c, None)
            },
            EditorCommand::Quit => (self.quit(false), None),
            EditorCommand::Save => (c, Some(EditorAction::Save { display_notification: true })),
            EditorCommand::ToggleLockSelection => {
                self.needs_full_rerender = true;
                self.is_selection_locked = !self.is_selection_locked;
                (c, None)
            },
            EditorCommand::ToggleLineNumbers => {
                self.needs_full_rerender = true;
                self.config.show_line_numbers = !self.config.show_line_numbers;
                (c, None)
            },
            EditorCommand::ScrollViewportUp => {
                if self.viewport.top_line > 0 {
                    self.viewport.vertical_offset -= 1;
                }
                (c, None)
            },
            EditorCommand::ScrollViewportDown => {
                if self.viewport.top_line + (self.ui.editor_lines as usize) < self.document.n_lines() {
                    self.viewport.vertical_offset += 1;
                }
                (c, None)
            },
            _ => self.mode_execute_command(command),
        }
    }

    /// Puts `new_doc` in the document's place and the document in `new_doc`'s.
    pub fn swap_docuemnt(&mut self, new_doc: &mut crate::document::Document)
        ensures
            final(self).document == *old(new_doc),
            *final(new_doc) == old(self).document,
            final(self).needs_full_rerender,
            final(self).cursor == old(self).cursor,
            final(self).is_viewing_execution_output == old(self).is_viewing_execution_output,
    {
        std::mem::swap(&mut self.document, new_doc);
        self.needs_full_rerender = true;
    }

    /// Shows the output of the last run in place of the document, or the
    /// document again.
    pub fn toggle_execution_output(&mut self, execution_output: &mut crate::document::Document)
        ensures
            final(self).document == *old(execution_output),
            *final(execution_output) == old(self).document,
            final(self).is_viewing_execution_output == !old(self).is_viewing_execution_output,
            final(self).needs_full_rerender,
            final(self).cursor == old(self).cursor,
    {
        self.is_viewing_execution_output = !self.is_viewing_execution_output;
        self.swap_docuemnt(execution_output);
    }
}

/// With unsaved changes and confirmation on, the first `Quit` only warns
/// and the second quits.
pub proof fn lemma_quit_asks_once(v: EditorView)
    requires
        v.modified,
        v.config.confirm_quit_unsaved_changes,
        !v.first_quit_sent,
    ensures
        step(v, CommandView::Quit).1 == CommandExecutionResult::Continue,
        step(v, CommandView::Quit).0.notification == unsaved_changes_warning(),
        step(step(v, CommandView::Quit).0, CommandView::Quit).1 == CommandExecutionResult::ShouldQuit,
{
}

/// Without unsaved changes, `Quit` quits at once.
pub proof fn lemma_quit_when_saved(v: EditorView)
    requires
        !v.modified,
    ensures
        step(v, CommandView::Quit).1 == CommandExecutionResult::ShouldQuit,
{
}

/// Toggling line numbers twice gives back the setting.
pub proof fn lemma_toggle_line_numbers_twice(v: EditorView)
    ensures
        step(step(v, CommandView::ToggleLineNumbers).0, CommandView::ToggleLineNumbers).0.config == v.config,
{
}

/// Locking the selection twice unlocks it again, and the cursor and the
/// selection stay as they were.
pub proof fn lemma_toggle_selection_lock_twice(v: EditorView)
    ensures
        ({
            let v2 = step(step(v, CommandView::ToggleLockSelection).0, CommandView::ToggleLockSelection).0;
            &&& v2.is_selection_locked == v.is_selection_locked
            &&& v2.cursor == v.cursor
        }),
{
}

/// On the prompt line, typing a character and then deleting it gives back
/// the line, with the prompt cursor where the character went.
pub proof fn lemma_prompt_type_then_delete(v: EditorView, pos_x: usize, ch: char)
    requires
        v.mode is Prompt,
        pos_x <= v.prompt_line.len(),
        pos_x < usize::MAX,
    ensures
        ({
            let v1 = step(v, CommandView::InsertCharPrompt { pos_x, ch }).0;
            let v2 = step(v1, CommandView::DeleteCharPrompt { pos_x: (pos_x + 1) as usize }).0;
            v2.prompt_line == v.prompt_line && v2.prompt_cursor == pos_x
        }),
{
    let v1 = step(v, CommandView::InsertCharPrompt { pos_x, ch }).0;
    assert(v1.prompt_line.remove(pos_x as int) =~= v.prompt_line);
}

/// The prompt cursor stays within the prompt line under the prompt's own
/// editing commands, which act at the prompt cursor.
pub proof fn lemma_prompt_cursor_within_line(v: EditorView, c: CommandView)
    requires
        !(v.mode is Insert),
        v.prompt_cursor <= v.prompt_line.len(),
        prompt_defined(v, c),
        c is MovePromptCursorLeft || c is MovePromptCursorRight
            || (c matches CommandView::InsertCharPrompt { pos_x, .. } && pos_x == v.prompt_cursor)
            || (c matches CommandView::DeleteCharPrompt { pos_x } && pos_x == v.prompt_cursor),
    ensures
        step(v, c).0.prompt_cursor <= step(v, c).0.prompt_line.len(),
{
    assert(step(v, c) == mode_step(v, c));
    let p = prompt_step(v, c).0;
    assert(p.prompt_cursor <= p.prompt_line.len());
    match v.mode {
        EditorMode::Goto { original_cursor_pos } => {
            assert(edits_prompt(c));
            assert(goto_step(v, c, original_cursor_pos).0.prompt_line == p.prompt_line);
            assert(goto_step(v, c, original_cursor_pos).0.prompt_cursor == p.prompt_cursor);
        },
        EditorMode::Search { original_cursor_pos, is_backwards } => {
            assert(search_step(v, c, original_cursor_pos, is_backwards).0.prompt_line == p.prompt_line);
            assert(search_step(v, c, original_cursor_pos, is_backwards).0.prompt_cursor == p.prompt_cursor);
        },
        _ => {},
    }
}

/// Leaving goto or search mode by switching mode puts the cursor back
/// where the mode was entered.
pub proof fn lemma_goto_cancel_restores_cursor(v: EditorView, m: EditorMode)
    requires
        v.mode matches EditorMode::Goto { .. } || v.mode matches EditorMode::Search { .. },
    ensures
        ({
            let original = match v.mode {
                EditorMode::Goto { original_cursor_pos } => original_cursor_pos,
                EditorMode::Search { original_cursor_pos, .. } => original_cursor_pos,
                _ => (0usize, 0usize),
            };
            step(v, CommandView::SwitchMode(m)).0.cursor.cur == original
                && step(v, CommandView::SwitchMode(m)).0.mode == m
        }),
{
}

/// Submitting goto or search mode returns to insert mode and records where
/// the mode was entered as the latest jump: a jump back goes there.
pub proof fn lemma_submit_records_jump(v: EditorView)
    requires
        v.mode matches EditorMode::Goto { .. } || v.mode matches EditorMode::Search { .. },
    ensures
        ({
            let original = match v.mode {
                EditorMode::Goto { original_cursor_pos } => original_cursor_pos,
                EditorMode::Search { original_cursor_pos, .. } => original_cursor_pos,
                _ => (0usize, 0usize),
            };
            let v1 = step(v, CommandView::SubmitPrompt).0;
            &&& v1.mode is Insert
            &&& v1.cursor == v.cursor.jump_recorded(original)
            &&& (v.cursor.wf() ==> v1.cursor.jumped_back().cur == original)
            &&& v1.prompt_line.len() == 0
        }),
{
}

/// A selecting movement keeps the selection's anchor where the selection
/// began (at the cursor, if it begins now); a movement that does not
/// select drops it.
pub proof fn lemma_selection_anchor(v: EditorView, m: CursorMovement, with_selection: bool)
    ensures
        with_selection ==> step(v, CommandView::MoveCursor { movement: m, with_selection }).0.cursor.anchor
            == (match v.cursor.anchor { Some(a) => Some(a), None => Some(v.cursor.cur) }),
        !with_selection ==> step(v, CommandView::MoveCursor { movement: m, with_selection }).0.cursor.anchor is None,
{
}

/// Clearing the selection in insert mode leaves nothing selected, locked,
/// matched or searched for.
pub proof fn lemma_clear_selection(v: EditorView)
    requires
        v.mode is Insert,
    ensures
        ({
            let v1 = step(v, CommandView::ClearSelection).0;
            v1.cursor.selected_range() is None && !v1.is_selection_locked && v1.matched_range is None
                && v1.search_item is None && !v1.is_autocomplete_open
        }),
{
}

/// Edits, undo and redo change nothing until the document has answered.
pub proof fn lemma_edits_wait_for_document(v: EditorView, op: EditView)
    requires
        v.mode is Insert,
    ensures
        step(v, CommandView::Edit(op)).0 == v,
        step(v, CommandView::Edit(op)).2 == Some(ActionView::ApplyEdit { op, is_typing: is_typing(op) }),
        step(v, CommandView::UndoLastEdit).0 == v,
        step(v, CommandView::RedoLastEdit).0 == v,
{
}

/// `from..to` can be read out of `lines`.
fn selection_readable_in(lines: &Vec<Vec<char>>, from: Pos, to: Pos) -> (b: bool)
    ensures
        b == selection_readable(lines@.map_values(|l: Vec<char>| l@), from, to),
{
    let ghost ls = lines@.map_values(|l: Vec<char>| l@);
    if from.1 == to.1 {
        if from.1 < lines.len() {
            assert(ls[from.1 as int] == lines@[from.1 as int]@);
            from.0 <= to.0 && to.0 <= lines[from.1].len()
        } else {
            false
        }
    } else {
        if from.1 < lines.len() {
            assert(ls[from.1 as int] == lines@[from.1 as int]@);
        }
        if to.1 < lines.len() {
            assert(ls[to.1 as int] == lines@[to.1 as int]@);
        }
        from.1 < to.1
            && (from.1 >= lines.len() || from.0 <= lines[from.1].len())
            && (to.1 >= lines.len() || to.0 <= lines[to.1].len())
    }
}

impl Editor {
    /// Whether `command` can be carried out now (`execute_command` asks it):
    /// the arithmetic it does stays within machine integers and the text it
    /// reads lies in the document.
    pub fn command_defined(&self, command: &EditorCommand) -> (b: bool)
        ensures
            b == step_defined(self@, command@),
    {
        if self.cursor.jump_history_head > self.cursor.jump_history.len() {
            return false;
        }
        let ok_scroll = match command {
            EditorCommand::ScrollViewportUp => self.viewport.vertical_offset > isize::MIN,
            EditorCommand::ScrollViewportDown => self.viewport.vertical_offset < isize::MAX
                && self.viewport.top_line <= usize::MAX - self.ui.editor_lines as usize,
            _ => true,
        };
        if !ok_scroll {
            return false;
        }
        match self.mode {
            EditorMode::Insert => match command {
                EditorCommand::AutocompleteNext => self.autocomplete.selected_idx < usize::MAX,
                EditorCommand::AutocompleteInsert => {
                    let i = self.autocomplete.selected_idx;
                    if i < self.autocomplete.choices.len() {
                        proof {
                            assert(self@.choices[i as int] == self.autocomplete.choices@[i as int]@);
                        }
                        self.autocomplete.written_offset <= self.autocomplete.choices[i].len()
                    } else {
                        true
                    }
                },
                EditorCommand::YankSelection | EditorCommand::CutSelection => match self.cursor.get_selected_range() {
                    Some((from, to)) => selection_readable_in(&self.document.lines, from, to),
                    None => true,
                },
                EditorCommand::FindMatchForward | EditorCommand::FindMatchBackward => {
                    match self.cursor.get_selected_range() {
                        Some((from, to)) => {
                            if from.1 != to.1 {
                                true
                            } else {
                                let y = self.cursor.cur_y;
                                if y < self.document.lines.len() {
                                    proof {
                                        assert(self@.lines[y as int] == self.document.lines@[y as int]@);
                                    }
                                    to.0 < self.document.lines[y].len() && from.0 <= to.0 + 1
                                } else {
                                    true
                                }
                            }
                        },
                        None => true,
                    }
                },
                _ => true,
            },
            _ => match command {
                EditorCommand::MovePromptCursorRight => self.status_bar.cursor_pos < usize::MAX,
                EditorCommand::InsertCharPrompt { pos_x, .. } => *pos_x <= self.status_bar.prompt_line.len()
                    && *pos_x < usize::MAX,
                EditorCommand::DeleteCharPrompt { pos_x } => *pos_x <= self.status_bar.prompt_line.len(),
                _ => true,
            },
        }
    }
}

/// The popup that hints at what may follow `Ctrl-k` and then `key`.
pub open spec fn chord_hint(key: Key) -> Option<Popup> {
    match key {
        Key::Char('x') => Some(Popup::ExecuteChord),
        Key::Char('l') => Some(Popup::LineChord),
        Key::Char('v') => Some(Popup::ViewChord),
        Key::Char('s') => Some(Popup::SelectionChord),
        Key::Char('t') | Key::Char('T') => Some(Popup::PressCharacter),
        _ => None,
    }
}

/// Hints show while a chord is entered: in insert mode, `Ctrl-k` brings up
/// the popup of chords, and a second key that opens a chord brings up the
/// popup of what may follow it.
pub proof fn lemma_chord_hints(e: Editor, b: Seq<Key>, second: Key)
    requires
        e.mode is Insert,
        chord_buffer_wf(b),
    ensures
        ({
            let (b1, out1) = chord_step(b, Key::Ctrl('k'));
            &&& out1 == Some(seq![Key::Ctrl('k'), Key::Null, Key::Null])
            &&& insert_chord_binding(e, Key::Ctrl('k'), Key::Null, Key::Null) == Some(CommandView::DisplayChordsHelp)
            &&& step(e@, CommandView::DisplayChordsHelp).0.popup == Some(Popup::Chords)
            &&& (chord_hint(second) matches Some(p) ==> {
                &&& chord_step(b1, second).1 == Some(seq![Key::Ctrl('k'), second, Key::Null])
                &&& insert_chord_binding(e, Key::Ctrl('k'), second, Key::Null) matches Some(c)
                &&& step(e@, c).0.popup == Some(p)
            })
        }),
{
}

/// In insert mode `Ctrl-z` undoes the last edit and `Ctrl-r` redoes it: the
/// keys give those commands, and the commands ask the document to undo and
/// to redo, changing nothing before it answers.
pub proof fn lemma_undo_redo_keys(e: Editor)
    requires
        e.mode is Insert,
    ensures
        command_binding(e, Input::Keypress(Key::Ctrl('z'))) == Some(CommandView::UndoLastEdit),
        command_binding(e, Input::Keypress(Key::Ctrl('r'))) == Some(CommandView::RedoLastEdit),
        step(e@, CommandView::UndoLastEdit) == (e@, CommandExecutionResult::Continue, Some(ActionView::Undo)),
        step(e@, CommandView::RedoLastEdit) == (e@, CommandExecutionResult::Continue, Some(ActionView::Redo)),
{
}

/// In search mode, with something searched for, `Ctrl-b` looks for the
/// previous match and `Ctrl-n` for the next one, both from the cursor.
pub proof fn lemma_search_directions(e: Editor)
    requires
        e.mode is Search,
        e.search_item is Some,
    ensures
        command_binding(e, Input::Keypress(Key::Ctrl('b'))) == Some(CommandView::FindMatchBackward),
        command_binding(e, Input::Keypress(Key::Ctrl('n'))) == Some(CommandView::FindMatchForward),
        step(e@, CommandView::FindMatchBackward).2
            == Some(ActionView::SearchAgain { origin: e@.cursor.cur, backwards: true }),
        step(e@, CommandView::FindMatchForward).2
            == Some(ActionView::SearchAgain { origin: e@.cursor.cur, backwards: false }),
        step(e@, CommandView::FindMatchBackward).0 == e@,
        step(e@, CommandView::FindMatchForward).0 == e@,
{
}

/// Cursor movements that need no search of the document go where their
/// names say, from the cursor: up and down by lines at the ideal column
/// (not above the first line), left and right by columns (not left of the
/// first), to the start or end of the line or of the document.
pub proof fn lemma_plain_movements(v: EditorView, k: usize, sel: bool)
    ensures
        ({
            let (x, y) = v.cursor.cur;
            let go = |m: CursorMovement| step(v, CommandView::MoveCursor { movement: m, with_selection: sel }).0.cursor.cur;
            &&& go(CursorMovement::Up(k)) == (v.cursor.ideal_x, if y >= k { (y - k) as usize } else { 0usize })
            &&& go(CursorMovement::Down(k)) == (v.cursor.ideal_x, if y + k <= usize::MAX { (y + k) as usize } else { usize::MAX })
            &&& go(CursorMovement::Left(k)) == (if x >= k { (x - k) as usize } else { 0usize }, y)
            &&& go(CursorMovement::Right(k)) == (if x + k <= usize::MAX { (x + k) as usize } else { usize::MAX }, y)
            &&& go(CursorMovement::StartOfLine) == (0usize, y)
            &&& go(CursorMovement::EndOfLine) == (usize::MAX, y)
            &&& go(CursorMovement::StartOfFile) == (0usize, 0usize)
            &&& go(CursorMovement::EndOfFile) == (0usize, v.lines.len() as usize)
        }),
{
}

/// Typing or deleting in search mode searches from where the search
/// started, in the search's direction, for the prompt line as edited: as a
/// regex compiled from that line when it is one.
pub proof fn lemma_search_typing(v: EditorView, c: CommandView, original: Pos, backwards: bool)
    requires
        v.mode == (EditorMode::Search { original_cursor_pos: original, is_backwards: backwards }),
        c is InsertCharPrompt || c is DeleteCharPrompt,
    ensures
        step(v, c).2 matches Some(ActionView::Search { origin, backwards: b, regex })
            && origin == original && b == backwards
            && (regex matches Some(p) ==> p == step(v, c).0.prompt_line),
{
}

/// Going down the completions selects the next one and going up the one
/// before (not before the first); inserting the selected completion types
/// the rest of the word after what is already written, at the cursor, and
/// takes the word out of the offered ones.
pub proof fn lemma_autocomplete_steps(v: EditorView)
    requires
        v.mode is Insert,
        v.selected_choice < usize::MAX,
    ensures
        step(v, CommandView::AutocompleteNext).0.selected_choice == v.selected_choice + 1,
        step(v, CommandView::AutocompletePrevious).0.selected_choice
            == (if v.selected_choice > 0 { v.selected_choice - 1 } else { 0 }),
        ({
            let i = v.selected_choice as int;
            let (w, r, a) = step(v, CommandView::AutocompleteInsert);
            i < v.choices.len() && v.written_offset <= v.choices[i].len() ==> {
                &&& a matches Some(ActionView::ApplyEdit { op: EditView::Insertion { pos, text: TextView::String(t) }, .. })
                    && pos == v.cursor.cur
                    && v.choices[i].take(v.written_offset as int) + t == v.choices[i]
                &&& w.choices.len() == v.choices.len() - 1
                &&& !w.is_autocomplete_open
            }
        }),
{
    let i = v.selected_choice as int;
    if i < v.choices.len() && v.written_offset <= v.choices[i].len() {
        let word = v.choices[i];
        assert(word.take(v.written_offset as int) + word.subrange(v.written_offset as int, word.len() as int) =~= word);
    }
}

/// In goto mode, once the prompt reads a line number (from one), the
/// cursor is at the start of that line.
pub proof fn lemma_goto_line(v: EditorView, c: CommandView, original: Pos, n: nat)
    requires
        v.mode == (EditorMode::Goto { original_cursor_pos: original }),
        c is InsertCharPrompt || c is DeleteCharPrompt,
        step(v, c).0.prompt_line == decimal_string(n),
        1 <= n <= usize::MAX,
    ensures
        step(v, c).0.cursor.cur == (0usize, (n - 1) as usize),
{
    crate::text::lemma_decimal_round_trip(n);
    let d = decimal_string(n);
    assert(d[0] != '+') by {
        assert(crate::text::is_digit(d[0]));
    }
    assert(crate::text::unsigned_digits(d) == d);
}

/// On the prompt line, Left and Right move the prompt cursor by one, not
/// before the line's start nor past its end, and leave the line as it is.
pub proof fn lemma_prompt_cursor_moves(e: Editor)
    requires
        !(e.mode is Insert),
        e@.prompt_cursor <= e@.prompt_line.len(),
    ensures
        command_binding(e, Input::Keypress(Key::Left)) == Some(CommandView::MovePromptCursorLeft),
        command_binding(e, Input::Keypress(Key::Right)) == Some(CommandView::MovePromptCursorRight),
        ({
            let v = e@;
            let l = step(v, CommandView::MovePromptCursorLeft).0;
            let r = step(v, CommandView::MovePromptCursorRight).0;
            &&& l.prompt_cursor == (if v.prompt_cursor > 0 { v.prompt_cursor - 1 } else { 0 })
            &&& r.prompt_cursor == (if v.prompt_cursor < v.prompt_line.len() { v.prompt_cursor + 1 } else { v.prompt_cursor as int })
            &&& l.prompt_line == v.prompt_line
            &&& r.prompt_line == v.prompt_line
        }),
{
    let v = e@;
    assert(v.prompt_line.len() == e.status_bar.prompt_line.len());
    let cl = CommandView::MovePromptCursorLeft;
    let cr = CommandView::MovePromptCursorRight;
    assert(step(v, cl) == mode_step(v, cl));
    assert(step(v, cr) == mode_step(v, cr));
    match v.mode {
        EditorMode::Goto { original_cursor_pos } => {
            assert(goto_step(v, cl, original_cursor_pos).0.prompt_cursor == prompt_step(v, cl).0.prompt_cursor);
            assert(goto_step(v, cr, original_cursor_pos).0.prompt_cursor == prompt_step(v, cr).0.prompt_cursor);
            assert(goto_step(v, cl, original_cursor_pos).0.prompt_line == v.prompt_line);
            assert(goto_step(v, cr, original_cursor_pos).0.prompt_line == v.prompt_line);
        },
        _ => {},
    }
}

/// Yanking a selection on one line hands its characters to the clipboard
/// with a count of them and changes nothing; cutting it does the same and
/// also removes them, the cursor going to where they started.
pub proof fn lemma_yank_and_cut(v: EditorView)
    requires
        v.mode is Insert,
        v.cursor.selected_range() matches Some((from, to)) && from.1 == to.1
            && selection_readable(v.lines, from, to),
    ensures
        ({
            let (from, to) = v.cursor.selected_range()->0;
            let text = TextView::String(v.lines[from.1 as int].subrange(from.0 as int, to.0 as int));
            let notice = "Yanked"@ + " "@ + decimal_string((to.0 - from.0) as nat) + " characters"@;
            let (y, _, ya) = step(v, CommandView::YankSelection);
            let (c, _, ca) = step(v, CommandView::CutSelection);
            &&& y == v
            &&& ya == Some(ActionView::Yank { text, notice, cut: None })
            &&& ca == Some(ActionView::Yank {
                text,
                notice,
                cut: Some(EditView::Replacement { pos_from: from, pos_to: to, text: TextView::Empty }),
            })
            &&& c.cursor.cur == from
            &&& c.cursor.anchor is None
        }),
{
    let (from, to) = v.cursor.selected_range()->0;
    let line = v.lines[from.1 as int].subrange(from.0 as int, to.0 as int);
    assert(line.len() == to.0 - from.0) by {
        assert(!pos_before(to, from));
    }
}

/// A paste replaces the selection, or without one goes in at the cursor.
pub proof fn lemma_paste_place(v: EditorView, text: TextView)
    ensures
        v.cursor.selected_range() matches Some((from, to)) ==>
            paste_edit(v, text) == (EditView::Replacement { pos_from: from, pos_to: to, text }),
        v.cursor.anchor is None ==> paste_edit(v, text) == (EditView::Insertion { pos: v.cursor.cur, text }),
{
}

/// Toggling line numbers or the selection lock flips that setting alone
/// and redraws the screen; scrolling the view up or down by hand moves it
/// one line, when there is a line to show that way.
pub proof fn lemma_toggles_and_scrolls(v: EditorView)
    requires
        v.viewport.vertical_offset > isize::MIN,
        v.viewport.vertical_offset < isize::MAX,
    ensures
        step(v, CommandView::ToggleLineNumbers).0.config.show_line_numbers == !v.config.show_line_numbers,
        step(v, CommandView::ToggleLineNumbers).0.needs_full_rerender,
        step(v, CommandView::ToggleLockSelection).0.is_selection_locked == !v.is_selection_locked,
        step(v, CommandView::ToggleLockSelection).0.config == v.config,
        step(v, CommandView::ScrollViewportUp).0.viewport.vertical_offset
            == (if v.viewport.top_line > 0 { v.viewport.vertical_offset - 1 } else { v.viewport.vertical_offset as int }),
        step(v, CommandView::ScrollViewportDown).0.viewport.vertical_offset
            == (if v.viewport.top_line + v.ui.editor_lines < v.lines.len() { v.viewport.vertical_offset + 1 }
                else { v.viewport.vertical_offset as int }),
{
}

} // verus!
