use vstd::prelude::*;

use crate::commands::EditorCommand as C;
use crate::commands::{
    CommandView, CursorMovement, EditOperation, EditView, EditorCommand, Text, TextView, opt_view,
};
use crate::editor::Editor;
use crate::keys::{Input, Key, Notification};
use crate::text::{char_is_numeric, is_numeric};

verus! {

#[derive(Clone, Copy)]
pub enum EditorMode {
    Insert,
    Prompt(&'static str),
    Goto { original_cursor_pos: (usize, usize) },
    Search { original_cursor_pos: (usize, usize), is_backwards: bool },
}

/// A cursor movement that selects when the selection is locked.
pub open spec fn locked_move(e: Editor, m: CursorMovement) -> Option<CommandView> {
    Some(CommandView::MoveCursor { movement: m, with_selection: e.is_selection_locked })
}

/// A cursor movement that always selects.
pub open spec fn selecting_move(m: CursorMovement) -> Option<CommandView> {
    Some(CommandView::MoveCursor { movement: m, with_selection: true })
}

/// Spaces from the cursor column up to the next tab stop.
pub open spec fn tab_spaces(e: Editor) -> int {
    e.config.tab_size - (e.cursor.cur_x as int % e.config.tab_size as int)
}

/// What typing `ch` inserts: a tab becomes spaces up to the next tab stop
/// when tabs emit spaces.
pub open spec fn typed_text(e: Editor, ch: char) -> TextView {
    if ch == '\t' && e.config.tab_emit_spaces {
        TextView::String(Seq::new(tab_spaces(e) as nat, |i: int| ' '))
    } else {
        TextView::Char(ch)
    }
}

/// Inserting `text` at the cursor, or replacing the selection with it.
pub open spec fn edit_at_cursor(e: Editor, text: TextView) -> Option<CommandView> {
    match e.cursor@.selected_range() {
        None => Some(CommandView::Edit(EditView::Insertion { pos: e.cursor@.cur, text })),
        Some((from, to)) => Some(CommandView::Edit(EditView::Replacement { pos_from: from, pos_to: to, text })),
    }
}

/// Deleting the selection.
pub open spec fn erase_selection(from: (usize, usize), to: (usize, usize)) -> Option<CommandView> {
    Some(CommandView::Edit(EditView::Replacement { pos_from: from, pos_to: to, text: TextView::Empty }))
}

/// The commands of single keys in insert mode.
pub open spec fn insert_key_binding(e: Editor, key: Key) -> Option<CommandView> {
    let pos = e.cursor@.cur;
    match key {
        Key::Esc => Some(CommandView::ClearSelection),
        Key::Ctrl('z') => Some(CommandView::UndoLastEdit),
        Key::Ctrl('r') => Some(CommandView::RedoLastEdit),
        Key::Ctrl('f') => Some(CommandView::SwitchMode(EditorMode::Search { original_cursor_pos: pos, is_backwards: false })),
        Key::Ctrl('b') => Some(CommandView::SwitchMode(EditorMode::Search { original_cursor_pos: pos, is_backwards: true })),
        Key::Ctrl('g') => Some(CommandView::SwitchMode(EditorMode::Goto { original_cursor_pos: pos })),
        Key::AltDown => Some(CommandView::ScrollViewportDown),
        Key::AltUp => Some(CommandView::ScrollViewportUp),
        Key::Alt('i') => locked_move(e, CursorMovement::NextJump),
        Key::Alt('o') => locked_move(e, CursorMovement::PreviousJump),
        Key::Ctrl('d') | Key::PageDown => locked_move(e, CursorMovement::Down(e.ui.editor_lines as usize)),
        Key::Ctrl('u') => locked_move(e, CursorMovement::Up(e.ui.editor_lines as usize)),
        Key::Alt('a') => locked_move(e, CursorMovement::StartOfLine),
        Key::Alt('s') => locked_move(e, CursorMovement::EndOfLine),
        Key::CtrlDown => locked_move(e, CursorMovement::NextParagraph),
        Key::CtrlShiftDown => selecting_move(CursorMovement::NextParagraph),
        Key::CtrlUp => locked_move(e, CursorMovement::PreviousParagraph),
        Key::CtrlShiftUp => selecting_move(CursorMovement::PreviousParagraph),
        Key::Alt('p') => locked_move(e, CursorMovement::MatchingParenthesis),
        Key::Alt('n') => Some(CommandView::FindMatchForward),
        Key::Alt('m') => Some(CommandView::FindMatchBackward),
        Key::Ctrl('e') | Key::Alt('e') => Some(CommandView::OpenCommandLine),
        Key::Ctrl('y') => Some(CommandView::YankSelection),
        Key::Ctrl('x') => Some(CommandView::CutSelection),
        Key::Ctrl('p') => Some(CommandView::Paste),
        Key::Ctrl('m') => Some(CommandView::AutocompletePrevious),
        Key::Ctrl('n') => if e.is_autocomplete_open {
            Some(CommandView::AutocompleteNext)
        } else {
            Some(CommandView::AutocompleteDisplay)
        },
        Key::Char(ch) => if ch == '\n' && e.is_autocomplete_open && e.autocomplete.choices@.len() > 0 {
            Some(CommandView::AutocompleteInsert)
        } else {
            edit_at_cursor(e, typed_text(e, ch))
        },
        Key::Backspace | Key::Delete => match e.cursor@.selected_range() {
            None => Some(CommandView::Edit(EditView::Deletion { pos })),
            Some((from, to)) => erase_selection(from, to),
        },
        Key::Ctrl('h') | Key::Ctrl('\x7F') | Key::Alt('\x7F') => if e.cursor.cur_x == 0 {
            Some(CommandView::Edit(EditView::Deletion { pos }))
        } else {
            match e.cursor@.selected_range() {
                None => Some(CommandView::Edit(EditView::DeletePreviousWord { pos })),
                Some((from, to)) => erase_selection(from, to),
            }
        },
        Key::Left | Key::Alt('h') => locked_move(e, CursorMovement::Left(1)),
        Key::Right | Key::Alt('l') => locked_move(e, CursorMovement::Right(1)),
        Key::Up => locked_move(e, CursorMovement::Up(1)),
        Key::Down => locked_move(e, CursorMovement::Down(1)),
        Key::Alt('k') => locked_move(e, CursorMovement::PreviousParagraph),
        Key::Alt('j') => locked_move(e, CursorMovement::NextParagraph),
        Key::ShiftLeft => selecting_move(CursorMovement::Left(1)),
        Key::ShiftRight => selecting_move(CursorMovement::Right(1)),
        Key::ShiftUp => selecting_move(CursorMovement::Up(1)),
        Key::ShiftDown => selecting_move(CursorMovement::Down(1)),
        Key::CtrlRight | Key::Alt('w') => locked_move(e, CursorMovement::NextWordEnd),
        Key::CtrlShiftRight => selecting_move(CursorMovement::NextWordEnd),
        Key::CtrlLeft | Key::Alt('b') => locked_move(e, CursorMovement::PreviousWordStart),
        Key::CtrlShiftLeft => selecting_move(CursorMovement::PreviousWordStart),
        Key::Ctrl('t') => Some(CommandView::DisplayHelp),
        _ => None,
    }
}

/// The commands of `Ctrl-k` chords in insert mode; `b` and `c` are the two
/// keys after `Ctrl-k` (`Null` while the chord is still being typed).
pub open spec fn insert_chord_binding(e: Editor, a: Key, b: Key, c: Key) -> Option<CommandView> {
    if a != Key::Ctrl('k') {
        None
    } else {
        match (b, c) {
            (Key::Null, Key::Null) => Some(CommandView::DisplayChordsHelp),
            (Key::Char('x'), Key::Null) => Some(CommandView::DisplayExecuteChordHelp),
            (Key::Char('l'), Key::Null) => Some(CommandView::DisplayLineChordHelp),
            (Key::Char('v'), Key::Null) => Some(CommandView::DisplayViewChordHelp),
            (Key::Char('t'), Key::Null) | (Key::Char('T'), Key::Null) => Some(CommandView::DisplayPressCharacterPopup),
            (Key::Char('l'), Key::Char('n')) => Some(CommandView::ToggleLineNumbers),
            (Key::Char('l'), Key::Char('d')) => erase_selection((0, e.cursor.cur_y), (0, (e.cursor.cur_y + 1) as usize)),
            (Key::Char('l'), Key::Char('w')) => locked_move(e, CursorMovement::StartOfLine),
            (Key::Char('l'), Key::Char('e')) => locked_move(e, CursorMovement::EndOfLine),
            (Key::Char('t'), Key::Char(ch)) => locked_move(e, CursorMovement::NextOccurrenceOf(ch)),
            (Key::Char('T'), Key::Char(ch)) => locked_move(e, CursorMovement::PreviousOccurrenceOf(ch)),
            (Key::Char('x'), Key::Char('?')) => Some(CommandView::PromptExecutor),
            (Key::Char('x'), k) => Some(CommandView::ExecuteFile(k)),
            (Key::Char('v'), Key::Char('o')) => Some(CommandView::ViewExecutionOutput),
            (Key::Char('s'), Key::Null) => Some(CommandView::DisplaySelectionChordHelp),
            (Key::Char('s'), Key::Char('l')) => Some(CommandView::ToggleLockSelection),
            _ => None,
        }
    }
}

pub open spec fn insert_binding(e: Editor, input: Input) -> Option<CommandView> {
    match input {
        Input::Keypress(k) => insert_key_binding(e, k),
        Input::KeyChord(ks) => insert_chord_binding(e, ks[0], ks[1], ks[2]),
        _ => None,
    }
}

/// The inputs on which insert mode's keybindings are defined: a tab that
/// emits spaces needs a non-zero tab size, deleting the last possible line
/// a line after it.
pub open spec fn insert_parse_defined(e: Editor, input: Input) -> bool {
    &&& (input == Input::Keypress(Key::Char('\t')) && e.config.tab_emit_spaces ==> e.config.tab_size > 0)
    &&& (input matches Input::KeyChord(ks) && ks[0] == Key::Ctrl('k') && ks[1] == Key::Char('l')
        && ks[2] == Key::Char('d') ==> e.cursor.cur_y < usize::MAX)
}

/// `n` spaces.
fn spaces(n: usize) -> (v: Vec<char>)
    ensures
        v@ == Seq::new(n as nat, |i: int| ' '),
{
    let mut v: Vec<char> = Vec::new();
    let mut i: usize = 0;
    while i < n
        invariant
            i <= n,
            v@ == Seq::new(i as nat, |j: int| ' '),
        decreases n - i,
    {
        v.push(' ');
        i += 1;
    }
    v
}

impl Editor {
    fn locked(&self, movement: CursorMovement) -> (c: Option<EditorCommand>)
        ensures
            opt_view(c) == locked_move(*self, movement),
    {
        Some(EditorCommand::MoveCursor { movement, with_selection: self.is_selection_locked })
    }

    fn edit_with(&self, text: Text) -> (c: Option<EditorCommand>)
        ensures
            opt_view(c) == edit_at_cursor(*self, text@),
    {
        match self.cursor.get_selected_range() {
            None => Some(EditorCommand::Edit(EditOperation::Insertion { pos: self.cursor.pos(), text })),
            Some((pos_from, pos_to)) => Some(EditorCommand::Edit(EditOperation::Replacement { pos_from, pos_to, text })),
        }
    }

    fn erase(pos_from: (usize, usize), pos_to: (usize, usize)) -> (c: Option<EditorCommand>)
        ensures
            opt_view(c) == erase_selection(pos_from, pos_to),
    {
        Some(EditorCommand::Edit(EditOperation::Replacement { pos_from, pos_to, text: Text::Empty }))
    }

    fn insert_mode_parse_key(&self, key: Key) -> (c: Option<EditorCommand>)
        requires
            key == Key::Char('\t') && self.config.tab_emit_spaces ==> self.config.tab_size > 0,
        ensures
            opt_view(c) == insert_key_binding(*self, key),
    {
        match key {
            Key::Esc => Some(C::ClearSelection),
            Key::Ctrl('z') => Some(C::UndoLastEdit),
            Key::Ctrl('r') => Some(C::RedoLastEdit),
            Key::Ctrl('f') => Some(C::SwitchMode(EditorMode::Search { original_cursor_pos: self.cursor.pos(), is_backwards: false })),
            Key::Ctrl('b') => Some(C::SwitchMode(EditorMode::Search { original_cursor_pos: self.cursor.pos(), is_backwards: true })),
            Key::Ctrl('g') => Some(C::SwitchMode(EditorMode::Goto { original_cursor_pos: self.cursor.pos() })),
            Key::AltDown => Some(C::ScrollViewportDown),
            Key::AltUp => Some(C::ScrollViewportUp),
            Key::Alt('i') => self.locked(CursorMovement::NextJump),
            Key::Alt('o') => self.locked(CursorMovement::PreviousJump),
            Key::Ctrl('d') | Key::PageDown => self.locked(CursorMovement::Down(self.ui.editor_lines as usize)),
            Key::Ctrl('u') => self.locked(CursorMovement::Up(self.ui.editor_lines as usize)),
            Key::Alt('a') => self.locked(CursorMovement::StartOfLine),
            Key::Alt('s') => self.locked(CursorMovement::EndOfLine),
            Key::CtrlDown => self.locked(CursorMovement::NextParagraph),
            Key::CtrlShiftDown => Some(C::MoveCursor { movement: CursorMovement::NextParagraph, with_selection: true }),
            Key::CtrlUp => self.locked(CursorMovement::PreviousParagraph),
            Key::CtrlShiftUp => Some(C::MoveCursor { movement: CursorMovement::PreviousParagraph, with_selection: true }),
            Key::Alt('p') => self.locked(CursorMovement::MatchingParenthesis),
            Key::Alt('n') => Some(C::FindMatchForward),
            Key::Alt('m') => Some(C::FindMatchBackward),
            Key::Ctrl('e') | Key::Alt('e') => Some(C::OpenCommandLine),
            Key::Ctrl('y') => Some(C::YankSelection),
            Key::Ctrl('x') => Some(C::CutSelection),
            Key::Ctrl('p') => Some(C::Paste),
            Key::Ctrl('m') => Some(C::AutocompletePrevious),
            Key::Ctrl('n') => {
                if self.is_autocomplete_open {
                    Some(C::AutocompleteNext)
                } else {
                    Some(C::AutocompleteDisplay)
                }
            },
            Key::Char(ch) => {
                if ch == '\n' && self.is_autocomplete_open && self.autocomplete.choices.len() > 0 {
                    return Some(C::AutocompleteInsert);
                }
                let text = if ch == '\t' && self.config.tab_emit_spaces {
                    let tab_size = self.config.tab_size as usize;
                    let n_spaces = tab_size - (self.cursor.cur_x % tab_size);
                    Text::String(spaces(n_spaces))
                } else {
                    Text::Char(ch)
                };
                self.edit_with(text)
            },
            Key::Backspace | Key::Delete => {
                match self.cursor.get_selected_range() {
                    None => Some(C::Edit(EditOperation::Deletion { pos: self.cursor.pos() })),
                    Some((pos_from, pos_to)) => Self::erase(pos_from, pos_to),
                }
            },
            Key::Ctrl('h') | Key::Ctrl('\x7F') | Key::Alt('\x7F') => {
                if self.cursor.cur_x == 0 {
                    Some(C::Edit(EditOperation::Deletion { pos: self.cursor.pos() }))
                } else {
                    match self.cursor.get_selected_range() {
                        None => Some(C::Edit(EditOperation::DeletePreviousWord { pos: self.cursor.pos() })),
                        Some((pos_from, pos_to)) => Self::erase(pos_from, pos_to),
                    }
                }
            },
            Key::Left | Key::Alt('h') => self.locked(CursorMovement::Left(1)),
            Key::Right | Key::Alt('l') => self.locked(CursorMovement::Right(1)),
            Key::Up => self.locked(CursorMovement::Up(1)),
            Key::Down => self.locked(CursorMovement::Down(1)),
            Key::Alt('k') => self.locked(CursorMovement::PreviousParagraph),
            Key::Alt('j') => self.locked(CursorMovement::NextParagraph),
            Key::ShiftLeft => Some(C::MoveCursor { movement: CursorMovement::Left(1), with_selection: true }),
            Key::ShiftRight => Some(C::MoveCursor { movement: CursorMovement::Right(1), with_selection: true }),
            Key::ShiftUp => Some(C::MoveCursor { movement: CursorMovement::Up(1), with_selection: true }),
            Key::ShiftDown => Some(C::MoveCursor { movement: CursorMovement::Down(1), with_selection: true }),
            Key::CtrlRight | Key::Alt('w') => self.locked(CursorMovement::NextWordEnd),
            Key::CtrlShiftRight => Some(C::MoveCursor { movement: CursorMovement::NextWordEnd, with_selection: true }),
            Key::CtrlLeft | Key::Alt('b') => self.locked(CursorMovement::PreviousWordStart),
            Key::CtrlShiftLeft => Some(C::MoveCursor { movement: CursorMovement::PreviousWordStart, with_selection: true }),
            Key::Ctrl('t') => Some(C::DisplayHelp),
            _ => None,
        }
    }

    fn insert_mode_parse_chord(&self, a: Key, b: Key, c: Key) -> (r: Option<EditorCommand>)
        requires
            a == Key::Ctrl('k') && b == Key::Char('l') && c == Key::Char('d') ==> self.cursor.cur_y < usize::MAX,
        ensures
            opt_view(r) == insert_chord_binding(*self, a, b, c),
    {
        if a != Key::Ctrl('k') {
            return None;
        }
        match (b, c) {
            (Key::Null, Key::Null) => Some(C::DisplayChordsHelp),
            (Key::Char('x'), Key::Null) => Some(C::DisplayExecuteChordHelp),
            (Key::Char('l'), Key::Null) => Some(C::DisplayLineChordHelp),
            (Key::Char('v'), Key::Null) => Some(C::DisplayViewChordHelp),
            (Key::Char('t'), Key::Null) | (Key::Char('T'), Key::Null) => Some(C::DisplayPressCharacterPopup),
            (Key::Char('l'), Key::Char('n')) => Some(C::ToggleLineNumbers),
            (Key::Char('l'), Key::Char('d')) => Self::erase((0, self.cursor.cur_y), (0, self.cursor.cur_y + 1)),
            (Key::Char('l'), Key::Char('w')) => self.locked(CursorMovement::StartOfLine),
            (Key::Char('l'), Key::Char('e')) => self.locked(CursorMovement::EndOfLine),
            (Key::Char('t'), Key::Char(ch)) => self.locked(CursorMovement::NextOccurrenceOf(ch)),
            (Key::Char('T'), Key::Char(ch)) => self.locked(CursorMovement::PreviousOccurrenceOf(ch)),
            (Key::Char('x'), Key::Char('?')) => Some(C::PromptExecutor),
            (Key::Char('x'), k) => Some(C::ExecuteFile(k)),
            (Key::Char('v'), Key::Char('o')) => Some(C::ViewExecutionOutput),
            (Key::Char('s'), Key::Null) => Some(C::DisplaySelectionChordHelp),
            (Key::Char('s'), Key::Char('l')) => Some(C::ToggleLockSelection),
            _ => None,
        }
    }

    /// The command that `input` gives in insert mode, if any.
    pub fn insert_mode_parse_command(&self, input: Input) -> (c: Option<EditorCommand>)
        requires
            insert_parse_defined(*self, input),
        ensures
            opt_view(c) == insert_binding(*self, input),
    {
        match input {
            Input::Keypress(key) => self.insert_mode_parse_key(key),
            Input::KeyChord(ks) => self.insert_mode_parse_chord(ks[0], ks[1], ks[2]),
            _ => None,
        }
    }
}

/// The commands of the prompt line (also used by goto and search mode).
pub open spec fn prompt_binding(e: Editor, input: Input) -> Option<CommandView> {
    match input {
        Input::Keypress(Key::Esc) => Some(CommandView::SwitchMode(EditorMode::Insert)),
        Input::Keypress(Key::Left) => Some(CommandView::MovePromptCursorLeft),
        Input::Keypress(Key::Right) => Some(CommandView::MovePromptCursorRight),
        Input::Keypress(Key::Backspace) | Input::Keypress(Key::Delete) =>
            Some(CommandView::DeleteCharPrompt { pos_x: e.status_bar.cursor_pos }),
        Input::Keypress(Key::Char('\n')) | Input::Keypress(Key::Char('\r')) => Some(CommandView::SubmitPrompt),
        Input::Keypress(Key::Char(ch)) => Some(CommandView::InsertCharPrompt { pos_x: e.status_bar.cursor_pos, ch }),
        _ => None,
    }
}

/// Goto mode: Enter submits, `w` and `e` go to the start and end of the
/// file, numeric characters are typed, other characters are ignored.
pub open spec fn goto_binding(e: Editor, input: Input) -> Option<CommandView> {
    match input {
        Input::Keypress(Key::Char('\n')) | Input::Keypress(Key::Char('\r')) => Some(CommandView::SubmitPrompt),
        Input::Keypress(Key::Char('w')) => locked_move(e, CursorMovement::StartOfFile),
        Input::Keypress(Key::Char('e')) => locked_move(e, CursorMovement::EndOfFile),
        Input::Keypress(Key::Char(ch)) => if is_numeric(ch) {
            Some(CommandView::InsertCharPrompt { pos_x: e.status_bar.cursor_pos, ch })
        } else {
            None
        },
        _ => prompt_binding(e, input),
    }
}

/// Search mode: `Ctrl-n` and `Ctrl-b` go to the next and previous match;
/// the rest edits the prompt line.
pub open spec fn search_binding(e: Editor, input: Input) -> Option<CommandView> {
    match input {
        Input::Keypress(Key::Ctrl('n')) => Some(CommandView::FindMatchForward),
        Input::Keypress(Key::Ctrl('b')) => Some(CommandView::FindMatchBackward),
        _ => prompt_binding(e, input),
    }
}

/// The command of an input in the editor's current mode: notifications are
/// shown, `Ctrl-q` quits and `Ctrl-s` saves in every mode.
pub open spec fn command_binding(e: Editor, input: Input) -> Option<CommandView> {
    match input {
        Input::ExternalNotification(Notification::Simple(m)) => Some(CommandView::DisplayMessage(m@)),
        Input::ExternalNotification(Notification::ExecutionEnd { status, output_available }) =>
            Some(CommandView::EndFileExecution(status@, output_available)),
        Input::Keypress(Key::Ctrl('q')) => Some(CommandView::Quit),
        Input::Keypress(Key::Ctrl('s')) => Some(CommandView::Save),
        _ => match e.mode {
            EditorMode::Insert => insert_binding(e, input),
            EditorMode::Prompt(_) => prompt_binding(e, input),
            EditorMode::Goto { .. } => goto_binding(e, input),
            EditorMode::Search { .. } => search_binding(e, input),
        },
    }
}

pub open spec fn parse_defined(e: Editor, input: Input) -> bool {
    e.mode is Insert ==> insert_parse_defined(e, input)
}

impl Editor {
    /// The command that `input` gives on the prompt line, if any.
    pub fn prompt_mode_parse_command(&self, input: Input) -> (c: Option<EditorCommand>)
        ensures
            opt_view(c) == prompt_binding(*self, input),
    {
        match input {
            Input::Keypress(Key::Esc) => Some(C::SwitchMode(EditorMode::Insert)),
            Input::Keypress(Key::Left) => Some(C::MovePromptCursorLeft),
            Input::Keypress(Key::Right) => Some(C::MovePromptCursorRight),
            Input::Keypress(Key::Backspace) | Input::Keypress(Key::Delete) =>
                Some(C::DeleteCharPrompt { pos_x: self.status_bar.cursor_pos }),
            Input::Keypress(Key::Char('\n')) | Input::Keypress(Key::Char('\r')) => Some(C::SubmitPrompt),
            Input::Keypress(Key::Char(ch)) => Some(C::InsertCharPrompt { pos_x: self.status_bar.cursor_pos, ch }),
            _ => None,
        }
    }

    /// The command that `input` gives in goto mode, if any.
    pub fn goto_mode_parse_command(&self, input: Input) -> (c: Option<EditorCommand>)
        ensures
            opt_view(c) == goto_binding(*self, input),
    {
        match input {
            Input::Keypress(Key::Char('\n')) | Input::Keypress(Key::Char('\r')) => Some(C::SubmitPrompt),
            Input::Keypress(Key::Char('w')) => self.locked(CursorMovement::StartOfFile),
            Input::Keypress(Key::Char('e')) => self.locked(CursorMovement::EndOfFile),
            Input::Keypress(Key::Char(ch)) => {
                if char_is_numeric(ch) {
                    Some(C::InsertCharPrompt { pos_x: self.status_bar.cursor_pos, ch })
                } else {
                    None
                }
            },
            _ => self.prompt_mode_parse_command(input),
        }
    }

    /// The command that `input` gives in search mode, if any.
    pub fn search_mode_parse_command(&self, input: Input) -> (c: Option<EditorCommand>)
        ensures
            opt_view(c) == search_binding(*self, input),
    {
        match input {
            Input::Keypress(Key::Ctrl('n')) => Some(C::FindMatchForward),
            Input::Keypress(Key::Ctrl('b')) => Some(C::FindMatchBackward),
            _ => self.prompt_mode_parse_command(input),
        }
    }

    /// Whether `parse_command` can read `input` now: a tab that emits spaces
    /// needs a tab size, and deleting a line needs a line after it.
    pub fn input_defined(&self, input: &Input) -> (b: bool)
        ensures
            b == parse_defined(*self, *input),
    {
        match self.mode {
            EditorMode::Insert => match input {
                Input::Keypress(Key::Char('\t')) => !self.config.tab_emit_spaces || self.config.tab_size > 0,
                Input::KeyChord(ks) => {
                    if ks[0] == Key::Ctrl('k') && ks[1] == Key::Char('l') && ks[2] == Key::Char('d') {
                        self.cursor.cur_y < usize::MAX
                    } else {
                        true
                    }
                },
                _ => true,
            },
            _ => true,
        }
    }

    /// The command that `input` gives in the current mode, if any.
    pub fn parse_command(&self, input: Input) -> (c: Option<EditorCommand>)
        requires
            parse_defined(*self, input),
        ensures
            opt_view(c) == command_binding(*self, input),
    {
        match input {
            Input::ExternalNotification(Notification::Simple(message)) => Some(C::DisplayMessage(message)),
            Input::ExternalNotification(Notification::ExecutionEnd { status, output_available }) =>
                Some(C::EndFileExecution(status, output_available)),
            Input::Keypress(Key::Ctrl('q')) => Some(C::Quit),
            Input::Keypress(Key::Ctrl('s')) => Some(C::Save),
            _ => match self.mode {
                EditorMode::Insert => self.insert_mode_parse_command(input),
                EditorMode::Prompt(_) => self.prompt_mode_parse_command(input),
                EditorMode::Goto { .. } => self.goto_mode_parse_command(input),
                EditorMode::Search { .. } => self.search_mode_parse_command(input),
            },
        }
    }
}

/// `Ctrl-q` quits and `Ctrl-s` saves whatever the mode.
pub proof fn lemma_quit_and_save_everywhere(e: Editor)
    ensures
        command_binding(e, Input::Keypress(Key::Ctrl('q'))) == Some(CommandView::Quit),
        command_binding(e, Input::Keypress(Key::Ctrl('s'))) == Some(CommandView::Save),
{
}

/// Esc leaves every prompt-like mode for insert mode; in insert mode it
/// clears the selection.
pub proof fn lemma_escape(e: Editor)
    ensures
        command_binding(e, Input::Keypress(Key::Esc)) == (match e.mode {
            EditorMode::Insert => Some(CommandView::ClearSelection),
            _ => Some(CommandView::SwitchMode(EditorMode::Insert)),
        }),
{
}

/// A typed character that is not a line end is inserted at the cursor in
/// insert mode (replacing the selection, if any); a tab with spaces on
/// becomes spaces up to the next tab stop.
pub proof fn lemma_typing_inserts(e: Editor, ch: char)
    requires
        e.mode is Insert,
        ch != '\n',
    ensures
        command_binding(e, Input::Keypress(Key::Char(ch))) == edit_at_cursor(e, typed_text(e, ch)),
{
}

/// Goto mode never types a non-numeric character into its prompt.
pub proof fn lemma_goto_types_only_numbers(e: Editor, ch: char)
    requires
        e.mode is Goto,
        ch != '\n' && ch != '\r' && ch != 'w' && ch != 'e',
        !is_numeric(ch),
    ensures
        command_binding(e, Input::Keypress(Key::Char(ch))) is None,
{
}

/// The keys the help popup lists do what it says in insert mode.
pub proof fn lemma_help_bindings(e: Editor)
    requires
        e.mode is Insert,
    ensures
        ({
            let pos = e.cursor@.cur;
            let mv = |m: CursorMovement| Some(CommandView::MoveCursor { movement: m, with_selection: e.is_selection_locked });
            let key = |k: Key| command_binding(e, Input::Keypress(k));
            &&& key(Key::Ctrl('t')) == Some(CommandView::DisplayHelp)
            &&& key(Key::Ctrl('g')) == Some(CommandView::SwitchMode(EditorMode::Goto { original_cursor_pos: pos }))
            &&& key(Key::Ctrl('f')) == Some(CommandView::SwitchMode(EditorMode::Search { original_cursor_pos: pos, is_backwards: false }))
            &&& key(Key::Ctrl('b')) == Some(CommandView::SwitchMode(EditorMode::Search { original_cursor_pos: pos, is_backwards: true }))
            &&& key(Key::Ctrl('z')) == Some(CommandView::UndoLastEdit)
            &&& key(Key::Ctrl('r')) == Some(CommandView::RedoLastEdit)
            &&& key(Key::Ctrl('y')) == Some(CommandView::YankSelection)
            &&& key(Key::Ctrl('x')) == Some(CommandView::CutSelection)
            &&& key(Key::Ctrl('p')) == Some(CommandView::Paste)
            &&& key(Key::Ctrl('u')) == mv(CursorMovement::Up(e.ui.editor_lines as usize))
            &&& key(Key::Ctrl('d')) == mv(CursorMovement::Down(e.ui.editor_lines as usize))
            &&& key(Key::Alt('o')) == mv(CursorMovement::PreviousJump)
            &&& key(Key::Alt('i')) == mv(CursorMovement::NextJump)
            &&& key(Key::Alt('j')) == mv(CursorMovement::NextParagraph)
            &&& key(Key::Alt('k')) == mv(CursorMovement::PreviousParagraph)
            &&& key(Key::Alt('n')) == Some(CommandView::FindMatchForward)
            &&& key(Key::Alt('m')) == Some(CommandView::FindMatchBackward)
            &&& key(Key::Alt('p')) == mv(CursorMovement::MatchingParenthesis)
            &&& key(Key::Up) == mv(CursorMovement::Up(1))
            &&& key(Key::Down) == mv(CursorMovement::Down(1))
            &&& key(Key::Left) == mv(CursorMovement::Left(1))
            &&& key(Key::Right) == mv(CursorMovement::Right(1))
        }),
{
}

/// The chords the chord popups list do what they say in insert mode.
pub proof fn lemma_chord_bindings(e: Editor, ch: char)
    requires
        e.mode is Insert,
    ensures
        ({
            let mv = |m: CursorMovement| Some(CommandView::MoveCursor { movement: m, with_selection: e.is_selection_locked });
            let chord = |b: Key, c: Key| insert_chord_binding(e, Key::Ctrl('k'), b, c);
            let y = e.cursor.cur_y;
            &&& chord(Key::Char('l'), Key::Char('n')) == Some(CommandView::ToggleLineNumbers)
            &&& chord(Key::Char('l'), Key::Char('d')) == Some(CommandView::Edit(EditView::Replacement {
                pos_from: (0usize, y), pos_to: (0usize, (y + 1) as usize), text: TextView::Empty }))
            &&& chord(Key::Char('l'), Key::Char('w')) == mv(CursorMovement::StartOfLine)
            &&& chord(Key::Char('l'), Key::Char('e')) == mv(CursorMovement::EndOfLine)
            &&& chord(Key::Char('t'), Key::Char(ch)) == mv(CursorMovement::NextOccurrenceOf(ch))
            &&& chord(Key::Char('T'), Key::Char(ch)) == mv(CursorMovement::PreviousOccurrenceOf(ch))
            &&& chord(Key::Char('x'), Key::Char('?')) == Some(CommandView::PromptExecutor)
            &&& chord(Key::Char('x'), Key::Char('p')) == Some(CommandView::ExecuteFile(Key::Char('p')))
            &&& chord(Key::Char('x'), Key::Char('x')) == Some(CommandView::ExecuteFile(Key::Char('x')))
            &&& chord(Key::Char('v'), Key::Char('o')) == Some(CommandView::ViewExecutionOutput)
            &&& chord(Key::Char('s'), Key::Char('l')) == Some(CommandView::ToggleLockSelection)
        }),
{
}

} // verus!
