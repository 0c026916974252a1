use vstd::prelude::*;

use crate::editor::{Editor, EditorView};
use crate::modes::EditorMode;
use crate::search::SearchItem;
use crate::terminal::sat_sub;
use crate::text::{chars_of, decimal_string, push_chars, push_str, usize_chars};

verus! {

/// The keybinding hints at the right of the status line.
pub open spec fn keybindings_hint() -> &'static str {
    "│ ^q: quit │ ^s: save │ ^t: help"
}

/// The keybinding hints shown at the right of the status line.
pub fn keybindings_text() -> (s: &'static str)
    ensures
        s == keybindings_hint(),
{
    "│ ^q: quit │ ^s: save │ ^t: help"
}

/// The label of flag `i` (modified, selection locked, running a command,
/// viewing output), short on narrow terminals.
pub open spec fn flag_text(i: int, small: bool) -> &'static str {
    if small {
        if i == 0 { "\x1b[30;103m * \x1b[0m" } else if i == 1 { "\x1b[30;104m sel \x1b[0m" } else if i == 2 {
            "\x1b[30;101m cmd \x1b[0m"
        } else { "\x1b[30;102m out \x1b[0m" }
    } else {
        if i == 0 { "\x1b[30;103m modified \x1b[0m" } else if i == 1 { "\x1b[30;104m sel. lock \x1b[0m" } else if i == 2 {
            "\x1b[30;101m running cmd \x1b[0m"
        } else { "\x1b[30;102m cmd output \x1b[0m" }
    }
}

pub fn flag_label(i: usize, small: bool) -> (s: &'static str)
    ensures
        s == flag_text(i as int, small),
{
    if small {
        if i == 0 { "\x1b[30;103m * \x1b[0m" } else if i == 1 { "\x1b[30;104m sel \x1b[0m" } else if i == 2 {
            "\x1b[30;101m cmd \x1b[0m"
        } else { "\x1b[30;102m out \x1b[0m" }
    } else {
        if i == 0 { "\x1b[30;103m modified \x1b[0m" } else if i == 1 { "\x1b[30;104m sel. lock \x1b[0m" } else if i == 2 {
            "\x1b[30;101m running cmd \x1b[0m"
        } else { "\x1b[30;102m cmd output \x1b[0m" }
    }
}

/// The editor's flags, in order: modified, selection locked, running a
/// command, viewing a run's output.
pub open spec fn flag_states(e: Editor) -> Seq<bool> {
    seq![e.document.modified, e.is_selection_locked, e.is_running_external_command, e.is_viewing_execution_output]
}

/// The labels of the flags that are set, in order.
pub open spec fn shown_flags(states: Seq<bool>, small: bool) -> Seq<&'static str>
    decreases states.len(),
{
    if states.len() == 0 {
        Seq::empty()
    } else {
        let prev = shown_flags(states.drop_last(), small);
        if states.last() { prev.push(flag_text(states.len() - 1, small)) } else { prev }
    }
}

/// The line and column (from one) of the cursor and how far through the
/// document it is, in percent.
pub open spec fn position_text(e: Editor) -> Seq<char> {
    let lines: int = if e.document.line_count() >= 1 { e.document.line_count() as int } else { 1 };
    let pct: int = if 100 * e.cursor.cur_y / lines <= 100 { 100 * e.cursor.cur_y / lines } else { 100 };
    "   "@ + decimal_string((e.cursor.cur_y + 1) as nat) + ":"@ + decimal_string((e.cursor.cur_x + 1) as nat)
        + " - "@ + decimal_string(pct as nat) + "%"@
}

/// What the status line shows.
pub enum StatusLine {
    /// A notification, in place of everything else.
    Notification(Vec<char>),
    /// In insert mode: the flags set, the cursor's position, and, when hints
    /// are on, the spaces before the keybinding hints.
    Position { flags: Vec<&'static str>, position: Vec<char>, hint_padding: Option<usize> },
    /// In the other modes: the labels before the prompt line, and where the
    /// prompt cursor is.
    Prompt { labels: Vec<&'static str>, cursor_pos: usize },
}

/// The labels before the prompt line in a mode other than insert mode.
pub open spec fn prompt_labels(e: Editor) -> Seq<&'static str> {
    match e.mode {
        EditorMode::Prompt(p) => seq![p],
        EditorMode::Goto { .. } => seq!["GOTO "],
        EditorMode::Search { is_backwards, .. } => {
            let head: Seq<&'static str> = if is_backwards { seq!["BACK_", "SEARCH "] } else { seq!["SEARCH "] };
            head.push(if e.search_item matches Some(SearchItem::PromptString) { "(exact) " } else { "(regex) " })
        },
        EditorMode::Insert => Seq::empty(),
    }
}

/// The width flag `i`'s label takes on screen: the label less its colour codes.
pub open spec fn flag_width(i: int, small: bool) -> int {
    if small {
        if i == 0 { 3 } else { 5 }
    } else {
        if i == 0 { 10 } else if i == 1 { 11 } else if i == 2 { 13 } else { 12 }
    }
}

/// The width the labels of the flags that are set take on screen.
pub open spec fn flags_width(states: Seq<bool>, small: bool) -> int
    decreases states.len(),
{
    if states.len() == 0 {
        0
    } else {
        flags_width(states.drop_last(), small) + (if states.last() { flag_width(states.len() - 1, small) } else { 0 })
    }
}

fn flag_visible_width(i: usize, small: bool) -> (w: usize)
    ensures
        w == flag_width(i as int, small),
{
    if small {
        if i == 0 { 3 } else { 5 }
    } else {
        if i == 0 { 10 } else if i == 1 { 11 } else if i == 2 { 13 } else { 12 }
    }
}

pub open spec fn status_defined(e: Editor) -> bool {
    &&& e.cursor.cur_y < usize::MAX
    &&& e.cursor.cur_x < usize::MAX
    &&& 100 * e.cursor.cur_y <= usize::MAX
}

impl Editor {
    /// The labels of the flags that are set, short on narrow terminals.
    pub fn get_flag_strings(&self) -> (r: Vec<&'static str>)
        ensures
            r@ == shown_flags(flag_states(*self), self.ui.term_width < 80),
    {
        let small = self.ui.term_width < 80;
        let states = [
            self.document.has_been_modified(),
            self.is_selection_locked,
            self.is_running_external_command,
            self.is_viewing_execution_output,
        ];
        let ghost all = flag_states(*self);
        assert(states@ == all);
        let mut r: Vec<&'static str> = Vec::new();
        let mut i: usize = 0;
        while i < 4
            invariant
                i <= 4,
                states@ == all,
                all.len() == 4,
                r@ == shown_flags(all.take(i as int), small),
            decreases 4 - i,
        {
            assert(all.take(i + 1).drop_last() == all.take(i as int));
            if states[i] {
                r.push(flag_label(i, small));
            }
            i += 1;
        }
        assert(all.take(4) == all);
        r
    }

    /// The width the labels of the set flags take on screen.
    fn flags_width(&self) -> (w: usize)
        ensures
            w == flags_width(flag_states(*self), self.ui.term_width < 80),
    {
        let small = self.ui.term_width < 80;
        let states = [
            self.document.has_been_modified(),
            self.is_selection_locked,
            self.is_running_external_command,
            self.is_viewing_execution_output,
        ];
        let ghost all = flag_states(*self);
        assert(states@ == all);
        let mut w: usize = 0;
        let mut i: usize = 0;
        while i < 4
            invariant
                i <= 4,
                states@ == all,
                all.len() == 4,
                w == flags_width(all.take(i as int), small),
                w <= 13 * i,
            decreases 4 - i,
        {
            assert(all.take(i + 1).drop_last() == all.take(i as int));
            if states[i] {
                w = w + flag_visible_width(i, small);
            }
            i += 1;
        }
        assert(all.take(4) == all);
        w
    }

    /// The cursor's line and column and its percentage through the document.
    pub fn position_text(&self) -> (t: Vec<char>)
        requires
            status_defined(*self),
        ensures
            t@ == position_text(*self),
    {
        let n = self.document.n_lines();
        let lines = if n >= 1 { n } else { 1 };
        let ratio = 100 * self.cursor.cur_y / lines;
        let pct = if ratio <= 100 { ratio } else { 100 };
        let mut t = chars_of("   ");
        let y = usize_chars(self.cursor.cur_y + 1);
        push_chars(&mut t, y.as_slice());
        push_str(&mut t, ":");
        let x = usize_chars(self.cursor.cur_x + 1);
        push_chars(&mut t, x.as_slice());
        push_str(&mut t, " - ");
        let p = usize_chars(pct);
        push_chars(&mut t, p.as_slice());
        push_str(&mut t, "%");
        t
    }

    /// What the status line shows: a pending notification, else (in insert
    /// mode) the flags, the cursor's position and the spacing before the
    /// keybinding hints, else the prompt's labels.
    pub fn render_status(&self) -> (s: StatusLine)
        requires
            status_defined(*self),
        ensures
            self.status_bar.notification@.len() > 0 ==> (s matches StatusLine::Notification(m)
                && m@ == self.status_bar.notification@),
            self.status_bar.notification@.len() == 0 && self.mode is Insert ==> (s matches StatusLine::Position {
                flags, position, hint_padding }
                && flags@ == shown_flags(flag_states(*self), self.ui.term_width < 80)
                && position@ == position_text(*self)
                && hint_padding == (if self.config.show_keybindings {
                    Some(sat_sub(sat_sub(self.ui.term_width as int, flags_width(flag_states(*self), self.ui.term_width < 80) + position@.len()),
                        keybindings_hint().len() as int) as usize)
                } else {
                    None
                })),
            self.status_bar.notification@.len() == 0 && !(self.mode is Insert) ==> (s matches StatusLine::Prompt {
                labels, cursor_pos }
                && labels@ == prompt_labels(*self)
                && cursor_pos == self.status_bar.cursor_pos),
    {
        if self.status_bar.notification.len() > 0 {
            let mut m: Vec<char> = Vec::new();
            push_chars(&mut m, self.status_bar.notification.as_slice());
            return StatusLine::Notification(m);
        }
        match self.mode {
            EditorMode::Insert => {
                let flags = self.get_flag_strings();
                let position = self.position_text();
                let hint_padding = if self.config.show_keybindings {
                    let width = self.flags_width();
                    let left = width.saturating_add(position.len());
                    let hint = keybindings_text();
                    Some((self.ui.term_width as usize).saturating_sub(left).saturating_sub(hint.len()))
                } else {
                    None
                };
                StatusLine::Position { flags, position, hint_padding }
            },
            EditorMode::Prompt(prompt) => {
                let mut labels: Vec<&'static str> = Vec::new();
                labels.push(prompt);
                StatusLine::Prompt { labels, cursor_pos: self.status_bar.cursor_pos }
            },
            EditorMode::Goto { .. } => {
                let mut labels: Vec<&'static str> = Vec::new();
                labels.push("GOTO ");
                StatusLine::Prompt { labels, cursor_pos: self.status_bar.cursor_pos }
            },
            EditorMode::Search { is_backwards, .. } => {
                let mut labels: Vec<&'static str> = Vec::new();
                if is_backwards {
                    labels.push("BACK_");
                }
                labels.push("SEARCH ");
                match self.search_item {
                    Some(SearchItem::PromptString) => labels.push("(exact) "),
                    _ => labels.push("(regex) "),
                }
                StatusLine::Prompt { labels, cursor_pos: self.status_bar.cursor_pos }
            },
        }
    }

    /// The document lines on screen, from the first to just past the last,
    /// and how many screen lines stay empty below them.
    pub fn edit_buffer_rows(&self) -> (r: (usize, usize, usize))
        requires
            self.viewport.top_line + self.ui.editor_lines <= usize::MAX,
            self.viewport.top_line <= self.document.line_count(),
        ensures
            r.0 == self.viewport.top_line,
            r.1 == (if self.viewport.top_line + self.ui.editor_lines <= self.document.line_count() {
                self.viewport.top_line + self.ui.editor_lines
            } else {
                self.document.line_count() as int
            }),
            r.2 == self.ui.editor_lines - (r.1 - r.0),
    {
        let low = self.viewport.top_line;
        let wanted = self.viewport.top_line + self.ui.editor_lines as usize;
        let n = self.document.n_lines();
        let high = if wanted <= n { wanted } else { n };
        (low, high, self.ui.editor_lines as usize - (high - low))
    }

    /// Line `line_idx` is drawn again: on a full redraw, on the cursor's
    /// line now or before, or when the document marked it changed.
    pub fn should_render_line(&self, line_idx: usize, line_needs_render: bool) -> (b: bool)
        ensures
            b == (self.needs_full_rerender || line_idx == self.cursor.cur_y || line_idx == self.cursor.past_y
                || line_needs_render),
    {
        self.needs_full_rerender || line_idx == self.cursor.cur_y || line_idx == self.cursor.past_y
            || line_needs_render
    }

    /// Where the terminal cursor goes: the cursor's place on screen, past the
    /// line-number gutter when it is shown.
    pub fn terminal_cursor_pos(&self) -> (p: (u16, u16))
        requires
            self.viewport.left_col <= self.cursor.cur_x,
            self.viewport.top_line <= self.cursor.cur_y,
            ((self.cursor.cur_x - self.viewport.left_col) as u16) + self.ui.ui_origin.0
                + (if self.config.show_line_numbers { 7int } else { 0int }) <= u16::MAX,
            ((self.cursor.cur_y - self.viewport.top_line) as u16) + self.ui.ui_origin.1 <= u16::MAX,
        ensures
            p.0 == ((self.cursor.cur_x - self.viewport.left_col) as u16) + self.ui.ui_origin.0
                + (if self.config.show_line_numbers { 7int } else { 0int }),
            p.1 == ((self.cursor.cur_y - self.viewport.top_line) as u16) + self.ui.ui_origin.1,
    {
        let gutter: u16 = if self.config.show_line_numbers { 7 } else { 0 };
        let x = ((self.cursor.cur_x - self.viewport.left_col) as u16) + self.ui.ui_origin.0 + gutter;
        let y = ((self.cursor.cur_y - self.viewport.top_line) as u16) + self.ui.ui_origin.1;
        (x, y)
    }
}

/// Where a popup of lines `line_widths` wide goes when asked for at
/// `origin_pos` (relative to the editor): its column and line on the
/// terminal, its width and its height. It is as wide as its widest line plus
/// a border on each side, moved left when it would pass the terminal's right
/// edge, and at most as high as the editor.
pub fn popup_frame(ui: &crate::terminal::UILayout, line_widths: &Vec<usize>, origin_pos: (u16, u16)) -> (r: (u16, u16, usize, u16))
    requires
        forall|k: int| 0 <= k < line_widths@.len() ==> #[trigger] line_widths@[k] + 2 <= ui.term_width,
        ui.term_width >= 2,
        line_widths@.len() + 2 <= usize::MAX,
        ui.ui_origin.1 + origin_pos.1 <= u16::MAX,
        ui.ui_origin.0 + origin_pos.0 <= u16::MAX,
        ui.ui_origin.0 + ui.term_width <= u16::MAX,
    ensures
        r.3 == (if ui.editor_lines <= line_widths@.len() + 2 { ui.editor_lines as int } else { line_widths@.len() + 2int }),
        forall|k: int| 0 <= k < line_widths@.len() ==> line_widths@[k] + 2 <= r.2,
        line_widths@.len() == 0 ==> r.2 == 2,
        line_widths@.len() > 0 ==> exists|k: int| 0 <= k < line_widths@.len() && line_widths@[k] + 2 == r.2,
        r.1 == ui.ui_origin.1 + origin_pos.1,
        r.0 == ui.ui_origin.0 + (if origin_pos.0 + r.2 > ui.term_width {
            (ui.term_width - r.2) as u16
        } else {
            origin_pos.0
        }),
{
    let mut widest: usize = 0;
    let mut i: usize = 0;
    while i < line_widths.len()
        invariant
            i <= line_widths@.len(),
            widest + 2 <= ui.term_width,
            forall|k: int| 0 <= k < line_widths@.len() ==> #[trigger] line_widths@[k] + 2 <= ui.term_width,
            forall|k: int| 0 <= k < i ==> line_widths@[k] <= widest,
            i == 0 ==> widest == 0,
            i > 0 ==> exists|k: int| 0 <= k < i && line_widths@[k] == widest,
        decreases line_widths@.len() - i,
    {
        if line_widths[i] > widest || i == 0 {
            widest = line_widths[i];
        }
        i += 1;
    }
    let width = widest + 2;
    let wanted = line_widths.len() + 2;
    let height: u16 = if (ui.editor_lines as usize) <= wanted { ui.editor_lines } else { wanted as u16 };
    let y = ui.ui_origin.1 + origin_pos.1;
    let x = if (origin_pos.0 as usize) + width > ui.term_width as usize {
        ui.ui_origin.0 + (((ui.term_width as usize) - width) as u16)
    } else {
        ui.ui_origin.0 + origin_pos.0
    };
    (x, y, width, height)
}

impl Editor {
    /// After a frame is drawn: its notification has been shown and is
    /// dropped, a popup stays for one frame only, and the frame after a
    /// popup is redrawn whole, to erase it.
    pub fn finish_frame(&mut self)
        ensures
            final(self)@ == (EditorView {
                notification: Seq::empty(),
                needs_full_rerender: old(self)@.popup is Some,
                popup: None,
                ..old(self)@
            }),
    {
        self.status_bar.notification.clear();
        self.needs_full_rerender = self.displayed_popup.is_some();
        self.displayed_popup = None;
    }
}

} // verus!
