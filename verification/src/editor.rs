use vstd::prelude::*;

use crate::autocomplete::EditorAutocomplete;
use crate::config::{ConfigView, EditorConfig};
use crate::cursor::{Cursor, CursorView, Pos};
use crate::document::Document;
use crate::modes::EditorMode;
use crate::search::SearchItem;
use crate::status::{StatusBar, SubmitAction};
use crate::terminal::UILayout;
use crate::viewport::Viewport;

verus! {

/// The help text shown over the document.
#[derive(Clone, Copy, PartialEq, Eq, Structural)]
pub enum Popup {
    Help,
    Chords,
    LineChord,
    ExecuteChord,
    ViewChord,
    SelectionChord,
    PressCharacter,
}

/// How a run of the editor ended.
#[derive(Clone, Copy, PartialEq, Eq, Structural)]
pub enum EditorRunResult {
    /// The terminal was resized: start again over the whole screen.
    RestartInFullscreenMode,
    Quit,
}

/// The model of the editor: every field by its model.
pub struct EditorView {
    pub config: ConfigView,
    pub lines: Seq<Seq<char>>,
    pub modified: bool,
    pub mode: EditorMode,
    pub prompt_line: Seq<char>,
    pub notification: Seq<char>,
    pub prompt_cursor: usize,
    pub submit_action: Option<SubmitAction>,
    pub cursor: CursorView,
    pub viewport: Viewport,
    pub ui: UILayout,
    pub search_item: Option<SearchItem>,
    pub matched_range: Option<(Pos, Pos)>,
    pub popup: Option<Popup>,
    pub choices: Seq<Seq<char>>,
    pub selected_choice: usize,
    pub written_offset: usize,
    pub is_autocomplete_open: bool,
    pub needs_full_rerender: bool,
    pub is_selection_locked: bool,
    pub first_quit_sent: bool,
    pub is_running_external_command: bool,
    pub is_viewing_execution_output: bool,
}

pub struct Editor {
    pub config: EditorConfig,
    pub document: Document,
    pub mode: EditorMode,
    pub status_bar: StatusBar,
    pub cursor: Cursor,
    pub viewport: Viewport,
    pub ui: UILayout,
    pub search_item: Option<SearchItem>,
    pub matched_range: Option<(Pos, Pos)>,
    pub displayed_popup: Option<Popup>,
    pub autocomplete: EditorAutocomplete,
    pub is_autocomplete_open: bool,
    pub needs_full_rerender: bool,
    pub is_selection_locked: bool,
    pub first_quit_sent: bool,
    pub is_running_external_command: bool,
    pub is_viewing_execution_output: bool,
}

/// `s` ends with `suffix`.
pub open spec fn ends_with(s: Seq<char>, suffix: Seq<char>) -> bool {
    s.len() >= suffix.len() && s.subrange(s.len() - suffix.len(), s.len() as int) == suffix
}

/// The runner a file's extension calls for: Python for `.py`, Node for
/// `.js`, Bash for `.sh`.
pub open spec fn runner_for_extension(path: Seq<char>) -> Option<Seq<char>> {
    if ends_with(path, ".py"@) {
        Some("/usr/bin/env python3"@)
    } else if ends_with(path, ".js"@) {
        Some("/usr/bin/env node"@)
    } else if ends_with(path, ".sh"@) {
        Some("/usr/bin/env bash"@)
    } else {
        None
    }
}

/// The command that runs the file at `path` for `key`: a fixed interpreter,
/// or for `x` the one named by the file's `#!` line, else the one its
/// extension calls for.
pub open spec fn executor_for(v: EditorView, key: crate::keys::Key, path: Seq<char>) -> Option<Seq<char>> {
    match key {
        crate::keys::Key::Char('p') => Some("/usr/bin/env python3"@),
        crate::keys::Key::Char('P') => Some("/usr/bin/env python"@),
        crate::keys::Key::Char('n') => Some("/usr/bin/env node"@),
        crate::keys::Key::Char('b') => Some("/usr/bin/env bash"@),
        crate::keys::Key::Char('x') => if v.lines.len() > 0 && v.lines[0].len() >= 2 && v.lines[0][0] == '#'
            && v.lines[0][1] == '!' {
            Some(v.lines[0].skip(2))
        } else {
            runner_for_extension(path)
        },
        _ => None,
    }
}

/// Whether `s` ends with `suffix`.
fn ends_with_chars(s: &Vec<char>, suffix: &Vec<char>) -> (b: bool)
    ensures
        b == ends_with(s@, suffix@),
{
    if s.len() < suffix.len() {
        return false;
    }
    let start = s.len() - suffix.len();
    let mut i: usize = 0;
    while i < suffix.len()
        invariant
            start + suffix@.len() == s@.len(),
            s@.len() == s.len(),
            i <= suffix@.len(),
            forall|k: int| 0 <= k < i ==> s@[start + k] == suffix@[k],
        decreases suffix@.len() - i,
    {
        if s[start + i] != suffix[i] {
            assert(s@.subrange(start as int, s@.len() as int)[i as int] != suffix@[i as int]);
            return false;
        }
        i += 1;
    }
    assert(s@.subrange(start as int, s@.len() as int) =~= suffix@);
    true
}

/// The runner the extension of the file at `path` calls for.
fn extension_runner(path: &Vec<char>) -> (r: Option<Vec<char>>)
    ensures
        match runner_for_extension(path@) {
            Some(x) => r matches Some(v) && v@ == x,
            None => r is None,
        },
{
    if ends_with_chars(path, &crate::text::chars_of(".py")) {
        Some(crate::text::chars_of("/usr/bin/env python3"))
    } else if ends_with_chars(path, &crate::text::chars_of(".js")) {
        Some(crate::text::chars_of("/usr/bin/env node"))
    } else if ends_with_chars(path, &crate::text::chars_of(".sh")) {
        Some(crate::text::chars_of("/usr/bin/env bash"))
    } else {
        None
    }
}

impl View for Editor {
    type V = EditorView;

    open spec fn view(&self) -> EditorView {
        EditorView {
            config: self.config@,
            lines: self.document.lines@.map_values(|l: Vec<char>| l@),
            modified: self.document.modified,
            mode: self.mode,
            prompt_line: self.status_bar.prompt_line@,
            notification: self.status_bar.notification@,
            prompt_cursor: self.status_bar.cursor_pos,
            submit_action: self.status_bar.submit_action,
            cursor: self.cursor@,
            viewport: self.viewport,
            ui: self.ui,
            search_item: self.search_item,
            matched_range: self.matched_range,
            popup: self.displayed_popup,
            choices: self.autocomplete.choices@.map_values(|c: Vec<char>| c@),
            selected_choice: self.autocomplete.selected_idx,
            written_offset: self.autocomplete.written_offset,
            is_autocomplete_open: self.is_autocomplete_open,
            needs_full_rerender: self.needs_full_rerender,
            is_selection_locked: self.is_selection_locked,
            first_quit_sent: self.first_quit_sent,
            is_running_external_command: self.is_running_external_command,
            is_viewing_execution_output: self.is_viewing_execution_output,
        }
    }
}

impl Editor {
    /// The editor's own invariant: the cursor's jump history is consistent.
    pub open spec fn wf(&self) -> bool {
        self.cursor@.wf()
    }

    /// Opens `document` with the cursor on line `open_at_line` (counted from
    /// one; zero also means the first line), kept within the document.
    pub fn new(document: Document, open_at_line: usize, config: EditorConfig, ui: UILayout) -> (e: Self)
        ensures
            e.wf(),
            e.cursor@ == ({
                let y = if open_at_line == 0 { 0 } else { open_at_line - 1 };
                let y = if y <= document.line_count() { y } else { document.line_count() as int };
                CursorView {
                    cur: (0usize, y as usize),
                    ideal_x: 0,
                    past: (0usize, y as usize),
                    anchor: None,
                    history: Seq::empty(),
                    head: 0,
                }
            }),
            e.viewport == Viewport::initial(ui.editor_lines, open_at_line),
            e.document == document,
            e.config == config,
            e.ui == ui,
            e.mode is Insert,
            e.status_bar.prompt_line@.len() == 0,
            e.status_bar.notification@.len() == 0,
            e.status_bar.cursor_pos == 0,
            e.status_bar.submit_action is None,
            e.search_item is None,
            e.matched_range is None,
            e.displayed_popup is None,
            !e.is_autocomplete_open,
            e.needs_full_rerender,
            !e.is_selection_locked,
            !e.first_quit_sent,
            !e.is_running_external_command,
            !e.is_viewing_execution_output,
    {
        let viewport = Viewport::new(ui.editor_lines, open_at_line);
        let n_lines = document.n_lines();
        let above = open_at_line.saturating_sub(1);
        let cur_y = if above <= n_lines { above } else { n_lines };
        Editor {
            document,
            mode: EditorMode::Insert,
            config,
            status_bar: StatusBar::new(),
            cursor: Cursor::new((0, cur_y)),
            ui,
            viewport,
            search_item: None,
            matched_range: None,
            displayed_popup: None,
            autocomplete: EditorAutocomplete::new(),
            is_autocomplete_open: false,
            needs_full_rerender: true,
            is_selection_locked: false,
            first_quit_sent: false,
            is_running_external_command: false,
            is_viewing_execution_output: false,
        }
    }

    pub fn set_ui(&mut self, ui: UILayout)
        ensures
            final(self)@ == (EditorView { ui, ..old(self)@ }),
    {
        self.ui = ui;
    }

    /// The command that runs the file at `file_path` for `key`: a fixed
    /// interpreter, or for `x` the one named by the file's `#!` line, else
    /// the one its extension calls for.
    pub fn get_executor_by_key(&self, key: crate::keys::Key, file_path: &Vec<char>) -> (r: Option<Vec<char>>)
        ensures
            match executor_for(self@, key, file_path@) {
                Some(s) => r matches Some(v) && v@ == s,
                None => r is None,
            },
    {
        match key {
            crate::keys::Key::Char('p') => Some(crate::text::chars_of("/usr/bin/env python3")),
            crate::keys::Key::Char('P') => Some(crate::text::chars_of("/usr/bin/env python")),
            crate::keys::Key::Char('n') => Some(crate::text::chars_of("/usr/bin/env node")),
            crate::keys::Key::Char('b') => Some(crate::text::chars_of("/usr/bin/env bash")),
            crate::keys::Key::Char('x') => {
                if self.document.lines.len() == 0 {
                    return extension_runner(file_path);
                }
                let first = &self.document.lines[0];
                proof {
                    assert(self@.lines[0] == first@);
                }
                if first.len() >= 2 && first[0] == '#' && first[1] == '!' {
                    Some(crate::text::slice_chars(first.as_slice(), 2, first.len()))
                } else {
                    extension_runner(file_path)
                }
            },
            _ => None,
        }
    }
}

/// The runner keys run the interpreters the chord popup names; `x` takes
/// the file's `#!` line, and without one the file's extension.
pub proof fn lemma_runner_keys(v: EditorView, path: Seq<char>)
    ensures
        executor_for(v, crate::keys::Key::Char('p'), path) == Some("/usr/bin/env python3"@),
        executor_for(v, crate::keys::Key::Char('P'), path) == Some("/usr/bin/env python"@),
        executor_for(v, crate::keys::Key::Char('n'), path) == Some("/usr/bin/env node"@),
        executor_for(v, crate::keys::Key::Char('b'), path) == Some("/usr/bin/env bash"@),
        v.lines.len() > 0 && v.lines[0].len() >= 2 && v.lines[0][0] == '#' && v.lines[0][1] == '!' ==>
            executor_for(v, crate::keys::Key::Char('x'), path) == Some(v.lines[0].skip(2)),
        !(v.lines.len() > 0 && v.lines[0].len() >= 2 && v.lines[0][0] == '#' && v.lines[0][1] == '!')
            && ends_with(path, ".py"@) ==> executor_for(v, crate::keys::Key::Char('x'), path) == Some("/usr/bin/env python3"@),
{
}

} // verus!
