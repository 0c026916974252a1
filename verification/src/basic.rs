//! The first editor: one file's lines, a cursor that moves one step at a
//! time, and a frame of lines and columns that scrolls near its edges.
use vstd::prelude::*;

use crate::text::{decimal_string, push_chars, push_str, usize_chars};
use crate::viewport::Viewport;

verus! {

pub struct EditorConfig {
    pub n_lines: u16,
    pub horizontal_margin: u16,
    pub vertical_margin: u16,
    pub show_line_numbers: bool,
}

impl Default for EditorConfig {
    fn default() -> (c: Self)
        ensures
            c.n_lines == 0,
            c.horizontal_margin == 4,
            c.vertical_margin == 4,
            c.show_line_numbers,
    {
        EditorConfig { n_lines: 0, horizontal_margin: 4, vertical_margin: 4, show_line_numbers: true }
    }
}

#[derive(Clone, Copy, PartialEq, Eq, Structural)]
pub enum MovementDirection {
    Up,
    Down,
    Left,
    Right,
}

/// What a key means to the editor: a character typed, a step of the
/// cursor, or a command.
pub enum EditorInput {
    CharInsertion(char),
    BasicMovement(MovementDirection),
    Command(crate::commands::EditorCommand),
}

pub struct EditorState {
    pub status_text: Vec<char>,
    pub viewport: Viewport,
    /// The cursor's place in the frame.
    pub cursor_pos_x: usize,
    pub cursor_pos_y: usize,
    /// The cursor's place in the file.
    pub cursor_file_row: usize,
    pub cursor_file_col: usize,
    pub ideal_cursor_pos_x: usize,
    pub cursor_vel_x: isize,
    pub cursor_vel_y: isize,
    pub is_file_modified: bool,
    pub is_selecting: bool,
}

pub struct Editor {
    pub file_name: Vec<char>,
    pub file_lines: Vec<Vec<char>>,
    pub state: EditorState,
    pub config: EditorConfig,
    pub term_width: u16,
}

/// The frame (first and one-past-last index shown) of `span` entries over
/// `content_len` entries, for a cursor at `cursor_file` shown at
/// `cursor_screen`, and how far it scrolls: toward the end when the cursor
/// moves on within `margin` of the frame's end, toward the start when it
/// moves back within `margin` of its start, never past the content.
pub open spec fn frame(cursor_file: int, cursor_screen: int, velocity: int, span: int, content_len: int, margin: int) -> (int, int, int) {
    let low = if cursor_file >= cursor_screen { cursor_file - cursor_screen } else { 0 };
    let high = if low + span <= content_len { low + span } else { content_len };
    let wiggle_low = low;
    let wiggle_high = content_len - low;
    let pos = if cursor_screen <= high { if low <= cursor_screen { cursor_screen } else { low } } else { if low <= high { high } else { low } };
    let to_start = pos - low;
    let to_end = high - pos;
    let scroll = if velocity > 0 && to_end < margin && wiggle_high > 0 {
        if margin - to_end <= wiggle_high { margin - to_end } else { wiggle_high }
    } else if velocity < 0 && to_start < margin && wiggle_low > 0 {
        if -(margin - to_start) >= -wiggle_low { -(margin - to_start) } else { -wiggle_low }
    } else {
        0
    };
    (low + scroll, high + scroll, scroll)
}

pub fn compute_frame(cursor_file: usize, cursor_screen: usize, velocity: isize, span: usize, content_len: usize, margin: usize) -> (r: (usize, usize, isize))
    requires
        cursor_file <= content_len + cursor_screen,
        content_len + content_len <= isize::MAX,
        span <= isize::MAX,
        margin <= isize::MAX,
    ensures
        (r.0 as int, r.1 as int, r.2 as int) == frame(cursor_file as int, cursor_screen as int, velocity as int,
            span as int, content_len as int, margin as int),
{
    let low = cursor_file.saturating_sub(cursor_screen);
    let high = if span <= content_len - low { low + span } else { content_len };
    let wiggle_low = low;
    let wiggle_high = content_len - low;
    let pos = if cursor_screen <= high { if low <= cursor_screen { cursor_screen } else { low } } else { high };
    let to_start = pos - low;
    let to_end = high - pos;
    let scroll: isize = if velocity > 0 && to_end < margin && wiggle_high > 0 {
        let s = if margin - to_end <= wiggle_high { margin - to_end } else { wiggle_high };
        s as isize
    } else if velocity < 0 && to_start < margin && wiggle_low > 0 {
        let s = if margin - to_start <= wiggle_low { margin - to_start } else { wiggle_low };
        -(s as isize)
    } else {
        0
    };
    if scroll >= 0 {
        (low + scroll as usize, high + scroll as usize, scroll)
    } else {
        let back = (-scroll) as usize;
        (low - back, high - back, scroll)
    }
}

impl Editor {
    pub open spec fn wf(&self) -> bool {
        self.file_lines@.len() > 0
    }

    pub fn move_cursor_up(&mut self)
        ensures
            final(self).state.cursor_pos_y == (if old(self).state.cursor_pos_y == 0 { 0 } else { old(self).state.cursor_pos_y - 1 }),
            final(self).state.cursor_pos_x == old(self).state.cursor_pos_x,
            final(self).file_lines == old(self).file_lines,
    {
        self.state.cursor_pos_y = self.state.cursor_pos_y.saturating_sub(1);
    }

    pub fn move_cursor_down(&mut self)
        requires
            old(self).state.cursor_pos_y < usize::MAX,
        ensures
            final(self).state.cursor_pos_y == old(self).state.cursor_pos_y + 1,
            final(self).state.cursor_pos_x == old(self).state.cursor_pos_x,
            final(self).file_lines == old(self).file_lines,
    {
        self.state.cursor_pos_y += 1;
    }

    pub fn move_cursor_left(&mut self)
        ensures
            final(self).state.cursor_pos_x == (if old(self).state.cursor_pos_x == 0 { 0 } else { old(self).state.cursor_pos_x - 1 }),
            final(self).state.cursor_pos_y == old(self).state.cursor_pos_y,
            final(self).file_lines == old(self).file_lines,
    {
        self.state.cursor_pos_x = self.state.cursor_pos_x.saturating_sub(1);
    }

    pub fn move_cursor_right(&mut self)
        requires
            old(self).state.cursor_pos_x < usize::MAX,
        ensures
            final(self).state.cursor_pos_x == old(self).state.cursor_pos_x + 1,
            final(self).state.cursor_pos_y == old(self).state.cursor_pos_y,
            final(self).file_lines == old(self).file_lines,
    {
        self.state.cursor_pos_x += 1;
    }

    /// Keeps the cursor on a line of the file, and within that line.
    pub fn clamp_cursor(&mut self)
        requires
            old(self).wf(),
        ensures
            final(self).wf(),
            final(self).file_lines == old(self).file_lines,
            final(self).state.cursor_pos_y == (if old(self).state.cursor_pos_y < old(self).file_lines@.len() {
                old(self).state.cursor_pos_y as int
            } else {
                old(self).file_lines@.len() - 1
            }),
            final(self).state.cursor_pos_x == (if old(self).state.cursor_pos_x <= old(self).file_lines@[final(self).state.cursor_pos_y as int]@.len() {
                old(self).state.cursor_pos_x as int
            } else {
                old(self).file_lines@[final(self).state.cursor_pos_y as int]@.len() as int
            }),
    {
        let max_y = self.file_lines.len() - 1;
        self.state.cursor_pos_y = if self.state.cursor_pos_y <= max_y { self.state.cursor_pos_y } else { max_y };
        let max_x = self.file_lines[self.state.cursor_pos_y].len();
        self.state.cursor_pos_x = if self.state.cursor_pos_x <= max_x { self.state.cursor_pos_x } else { max_x };
    }

    /// "<file>[*] | Ln <line>, Col <col> | <n> lines", counting from one.
    pub fn update_status_text(&mut self)
        requires
            old(self).state.cursor_pos_y < usize::MAX,
            old(self).state.cursor_pos_x < usize::MAX,
        ensures
            final(self).state.status_text@ == old(self).file_name@
                + (if old(self).state.is_file_modified { "*"@ } else { ""@ })
                + " | Ln "@ + decimal_string((old(self).state.cursor_pos_y + 1) as nat)
                + ", Col "@ + decimal_string((old(self).state.cursor_pos_x + 1) as nat)
                + " | "@ + decimal_string(old(self).file_lines@.len()) + " lines"@,
            final(self).file_lines == old(self).file_lines,
            final(self).state.cursor_pos_x == old(self).state.cursor_pos_x,
            final(self).state.cursor_pos_y == old(self).state.cursor_pos_y,
    {
        let mut t: Vec<char> = Vec::new();
        push_chars(&mut t, self.file_name.as_slice());
        if self.state.is_file_modified {
            push_str(&mut t, "*");
        } else {
            push_str(&mut t, "");
        }
        push_str(&mut t, " | Ln ");
        let line = usize_chars(self.state.cursor_pos_y + 1);
        push_chars(&mut t, line.as_slice());
        push_str(&mut t, ", Col ");
        let col = usize_chars(self.state.cursor_pos_x + 1);
        push_chars(&mut t, col.as_slice());
        push_str(&mut t, " | ");
        let total = usize_chars(self.file_lines.len());
        push_chars(&mut t, total.as_slice());
        push_str(&mut t, " lines");
        self.state.status_text = t;
    }

    /// The line the cursor is on.
    pub fn get_current_line(&self) -> (l: &Vec<char>)
        requires
            self.state.cursor_pos_y < self.file_lines@.len(),
        ensures
            l@ == self.file_lines@[self.state.cursor_pos_y as int]@,
    {
        &self.file_lines[self.state.cursor_pos_y]
    }

    /// The frame of lines shown, and how far it scrolls.
    pub fn compute_y_frame(&self) -> (r: (usize, usize, isize))
        requires
            self.state.cursor_file_row <= self.file_lines@.len() + self.state.cursor_pos_y,
            self.file_lines@.len() + self.file_lines@.len() <= isize::MAX,
        ensures
            (r.0 as int, r.1 as int, r.2 as int) == frame(self.state.cursor_file_row as int, self.state.cursor_pos_y as int,
                self.state.cursor_vel_y as int, self.config.n_lines as int, self.file_lines@.len() as int,
                self.config.vertical_margin as int),
    {
        compute_frame(self.state.cursor_file_row, self.state.cursor_pos_y, self.state.cursor_vel_y,
            self.config.n_lines as usize, self.file_lines.len(), self.config.vertical_margin as usize)
    }

    /// The frame of columns shown of a line of `line_len` characters in
    /// `term_width` columns, and how far it scrolls.
    pub fn compute_x_frame(&self, line_len: usize, term_width: usize) -> (r: (usize, usize, isize))
        requires
            self.state.cursor_file_col <= line_len + self.state.cursor_pos_x,
            line_len + line_len <= isize::MAX,
            term_width <= isize::MAX,
        ensures
            (r.0 as int, r.1 as int, r.2 as int) == frame(self.state.cursor_file_col as int, self.state.cursor_pos_x as int,
                self.state.cursor_vel_x as int, term_width as int, line_len as int,
                self.config.horizontal_margin as int),
    {
        compute_frame(self.state.cursor_file_col, self.state.cursor_pos_x, self.state.cursor_vel_x,
            term_width, line_len, self.config.horizontal_margin as usize)
    }
}

} // verus!
