use iedit::commands::{CursorMovement, EditOperation, EditorCommand, Text};
use iedit::config::EditorConfig;
use iedit::document::Document;
use iedit::editor::{Editor, Popup};
use iedit::keys::{Input, InputParser, Key, Notification};
use iedit::modes::EditorMode;
use iedit::terminal::UILayout;

fn editor(lines: &[&str]) -> Editor {
    let doc = Document { lines: lines.iter().map(|l| l.chars().collect()).collect(), modified: false };
    let ui = UILayout { ui_origin: (1, 1), term_width: 80, term_height: 24, editor_lines: 20 };
    Editor::new(doc, 0, EditorConfig::default(), ui)
}

fn key(k: Key) -> Input {
    Input::Keypress(k)
}

fn chord(b: Key, c: Key) -> Input {
    Input::KeyChord([Key::Ctrl('k'), b, c])
}

#[test]
fn typing_inserts_at_cursor() {
    let mut e = editor(&["hello"]);
    e.cursor.update_pos((2, 0), false);
    match e.parse_command(key(Key::Char('a'))) {
        Some(EditorCommand::Edit(EditOperation::Insertion { pos, text: Text::Char('a') })) => assert_eq!(pos, (2, 0)),
        _ => panic!("expected an insertion"),
    }
}

#[test]
fn tab_becomes_spaces_to_next_stop() {
    let mut e = editor(&["hello"]);
    e.cursor.update_pos((1, 0), false);
    match e.parse_command(key(Key::Char('\t'))) {
        Some(EditorCommand::Edit(EditOperation::Insertion { text: Text::String(s), .. })) => assert_eq!(s, vec![' '; 3]),
        _ => panic!("expected spaces"),
    }
    e.config.tab_emit_spaces = false;
    assert!(matches!(
        e.parse_command(key(Key::Char('\t'))),
        Some(EditorCommand::Edit(EditOperation::Insertion { text: Text::Char('\t'), .. }))
    ));
}

#[test]
fn typing_replaces_selection() {
    let mut e = editor(&["hello"]);
    e.cursor.selection_anchor = Some((4, 0));
    e.cursor.update_pos((1, 0), false);
    match e.parse_command(key(Key::Char('z'))) {
        Some(EditorCommand::Edit(EditOperation::Replacement { pos_from, pos_to, text: Text::Char('z') })) => {
            assert_eq!((pos_from, pos_to), ((1, 0), (4, 0)))
        },
        _ => panic!("expected a replacement"),
    }
    assert!(matches!(
        e.parse_command(key(Key::Backspace)),
        Some(EditorCommand::Edit(EditOperation::Replacement { text: Text::Empty, .. }))
    ));
}

#[test]
fn deleting_words_and_characters() {
    let mut e = editor(&["hello world"]);
    assert!(matches!(e.parse_command(key(Key::Ctrl('h'))), Some(EditorCommand::Edit(EditOperation::Deletion { pos: (0, 0) }))));
    e.cursor.update_pos((8, 0), false);
    assert!(matches!(
        e.parse_command(key(Key::Alt('\x7F'))),
        Some(EditorCommand::Edit(EditOperation::DeletePreviousWord { pos: (8, 0) }))
    ));
    assert!(matches!(e.parse_command(key(Key::Delete)), Some(EditorCommand::Edit(EditOperation::Deletion { pos: (8, 0) }))));
}

#[test]
fn quit_and_save_in_every_mode() {
    let mut e = editor(&[""]);
    for mode in [EditorMode::Insert, EditorMode::Prompt("> "), EditorMode::Goto { original_cursor_pos: (0, 0) },
        EditorMode::Search { original_cursor_pos: (0, 0), is_backwards: false }] {
        e.mode = mode;
        assert!(matches!(e.parse_command(key(Key::Ctrl('q'))), Some(EditorCommand::Quit)));
        assert!(matches!(e.parse_command(key(Key::Ctrl('s'))), Some(EditorCommand::Save)));
    }
}

#[test]
fn notifications_are_displayed() {
    let e = editor(&[""]);
    match e.parse_command(Input::ExternalNotification(Notification::Simple(vec!['h', 'i']))) {
        Some(EditorCommand::DisplayMessage(m)) => assert_eq!(m, vec!['h', 'i']),
        _ => panic!("expected a message"),
    }
    match e.parse_command(Input::ExternalNotification(Notification::ExecutionEnd { status: vec!['0'], output_available: true })) {
        Some(EditorCommand::EndFileExecution(s, true)) => assert_eq!(s, vec!['0']),
        _ => panic!("expected the end of a run"),
    }
}

#[test]
fn movement_keys() {
    let mut e = editor(&["a", "b"]);
    assert!(matches!(e.parse_command(key(Key::Left)), Some(EditorCommand::MoveCursor { movement: CursorMovement::Left(1), with_selection: false })));
    assert!(matches!(e.parse_command(key(Key::ShiftDown)), Some(EditorCommand::MoveCursor { movement: CursorMovement::Down(1), with_selection: true })));
    assert!(matches!(e.parse_command(key(Key::PageDown)), Some(EditorCommand::MoveCursor { movement: CursorMovement::Down(20), with_selection: false })));
    e.is_selection_locked = true;
    assert!(matches!(e.parse_command(key(Key::Ctrl('u'))), Some(EditorCommand::MoveCursor { movement: CursorMovement::Up(20), with_selection: true })));
    assert!(matches!(e.parse_command(key(Key::Alt('i'))), Some(EditorCommand::MoveCursor { movement: CursorMovement::NextJump, with_selection: true })));
    assert!(matches!(e.parse_command(key(Key::CtrlShiftLeft)), Some(EditorCommand::MoveCursor { movement: CursorMovement::PreviousWordStart, with_selection: true })));
    // Alt-j and Alt-k go to the end and the start of the paragraph.
    assert!(matches!(e.parse_command(key(Key::Alt('j'))), Some(EditorCommand::MoveCursor { movement: CursorMovement::NextParagraph, with_selection: true })));
    assert!(matches!(e.parse_command(key(Key::Alt('k'))), Some(EditorCommand::MoveCursor { movement: CursorMovement::PreviousParagraph, with_selection: true })));
    assert!(matches!(e.parse_command(key(Key::Down)), Some(EditorCommand::MoveCursor { movement: CursorMovement::Down(1), with_selection: true })));
}

#[test]
fn mode_switches_remember_the_cursor() {
    let mut e = editor(&["abc"]);
    e.cursor.update_pos((2, 0), false);
    assert!(matches!(e.parse_command(key(Key::Ctrl('g'))), Some(EditorCommand::SwitchMode(EditorMode::Goto { original_cursor_pos: (2, 0) }))));
    assert!(matches!(e.parse_command(key(Key::Ctrl('b'))), Some(EditorCommand::SwitchMode(EditorMode::Search { original_cursor_pos: (2, 0), is_backwards: true }))));
}

#[test]
fn autocomplete_keys() {
    let mut e = editor(&[""]);
    assert!(matches!(e.parse_command(key(Key::Ctrl('n'))), Some(EditorCommand::AutocompleteDisplay)));
    e.is_autocomplete_open = true;
    assert!(matches!(e.parse_command(key(Key::Ctrl('n'))), Some(EditorCommand::AutocompleteNext)));
    assert!(matches!(e.parse_command(key(Key::Char('\n'))), Some(EditorCommand::Edit(_))));
    e.autocomplete.choices = vec![vec!['f', 'o', 'o']];
    assert!(matches!(e.parse_command(key(Key::Char('\n'))), Some(EditorCommand::AutocompleteInsert)));
}

#[test]
fn chords() {
    let mut e = editor(&["abc", "def"]);
    e.cursor.update_pos((1, 1), false);
    assert!(matches!(e.parse_command(chord(Key::Null, Key::Null)), Some(EditorCommand::DisplayChordsHelp)));
    assert!(matches!(e.parse_command(chord(Key::Char('x'), Key::Null)), Some(EditorCommand::DisplayExecuteChordHelp)));
    assert!(matches!(e.parse_command(chord(Key::Char('x'), Key::Char('?'))), Some(EditorCommand::PromptExecutor)));
    assert!(matches!(e.parse_command(chord(Key::Char('x'), Key::Char('p'))), Some(EditorCommand::ExecuteFile(Key::Char('p')))));
    assert!(matches!(e.parse_command(chord(Key::Char('t'), Key::Char('z'))), Some(EditorCommand::MoveCursor { movement: CursorMovement::NextOccurrenceOf('z'), .. })));
    assert!(matches!(e.parse_command(chord(Key::Char('T'), Key::Null)), Some(EditorCommand::DisplayPressCharacterPopup)));
    assert!(matches!(e.parse_command(chord(Key::Char('s'), Key::Char('l'))), Some(EditorCommand::ToggleLockSelection)));
    assert!(matches!(e.parse_command(chord(Key::Char('v'), Key::Char('o'))), Some(EditorCommand::ViewExecutionOutput)));
    match e.parse_command(chord(Key::Char('l'), Key::Char('d'))) {
        Some(EditorCommand::Edit(EditOperation::Replacement { pos_from, pos_to, text: Text::Empty })) => {
            assert_eq!((pos_from, pos_to), ((0, 1), (0, 2)))
        },
        _ => panic!("expected the line to be deleted"),
    }
    assert!(e.parse_command(chord(Key::Char('q'), Key::Null)).is_none());
}

#[test]
fn prompt_keys() {
    let mut e = editor(&[""]);
    e.mode = EditorMode::Prompt("> ");
    e.status_bar.cursor_pos = 2;
    assert!(matches!(e.parse_command(key(Key::Esc)), Some(EditorCommand::SwitchMode(EditorMode::Insert))));
    assert!(matches!(e.parse_command(key(Key::Char('w'))), Some(EditorCommand::InsertCharPrompt { pos_x: 2, ch: 'w' })));
    assert!(matches!(e.parse_command(key(Key::Backspace)), Some(EditorCommand::DeleteCharPrompt { pos_x: 2 })));
    assert!(matches!(e.parse_command(key(Key::Char('\r'))), Some(EditorCommand::SubmitPrompt)));
    assert!(e.parse_command(key(Key::Up)).is_none());
}

#[test]
fn goto_keys_take_only_numbers() {
    let mut e = editor(&[""]);
    e.mode = EditorMode::Goto { original_cursor_pos: (0, 0) };
    assert!(matches!(e.parse_command(key(Key::Char('7'))), Some(EditorCommand::InsertCharPrompt { ch: '7', .. })));
    assert!(matches!(e.parse_command(key(Key::Char('٣'))), Some(EditorCommand::InsertCharPrompt { ch: '٣', .. })));
    assert!(e.parse_command(key(Key::Char('x'))).is_none());
    assert!(matches!(e.parse_command(key(Key::Char('w'))), Some(EditorCommand::MoveCursor { movement: CursorMovement::StartOfFile, .. })));
    assert!(matches!(e.parse_command(key(Key::Char('e'))), Some(EditorCommand::MoveCursor { movement: CursorMovement::EndOfFile, .. })));
    assert!(matches!(e.parse_command(key(Key::Left)), Some(EditorCommand::MovePromptCursorLeft)));
}

#[test]
fn search_keys() {
    let mut e = editor(&[""]);
    e.mode = EditorMode::Search { original_cursor_pos: (0, 0), is_backwards: false };
    assert!(matches!(e.parse_command(key(Key::Ctrl('n'))), Some(EditorCommand::FindMatchForward)));
    assert!(matches!(e.parse_command(key(Key::Ctrl('b'))), Some(EditorCommand::FindMatchBackward)));
    assert!(matches!(e.parse_command(key(Key::Char('x'))), Some(EditorCommand::InsertCharPrompt { ch: 'x', .. })));
}

#[test]
fn hints_show_while_a_chord_is_entered() {
    let mut e = editor(&["x"]);
    let mut p = InputParser::new();
    let c = e.parse_command(p.next_key(Key::Ctrl('k'))).unwrap();
    e.execute_command(c);
    assert!(e.displayed_popup == Some(Popup::Chords));
    e.displayed_popup = None;
    let c = e.parse_command(p.next_key(Key::Char('x'))).unwrap();
    e.execute_command(c);
    assert!(e.displayed_popup == Some(Popup::ExecuteChord));
    let c = e.parse_command(p.next_key(Key::Char('?'))).unwrap();
    assert!(matches!(c, EditorCommand::PromptExecutor));
}

#[test]
fn tab_is_undefined_without_a_tab_size() {
    let mut e = editor(&["x"]);
    assert!(e.input_defined(&key(Key::Char('\t'))));
    e.config.tab_size = 0;
    assert!(!e.input_defined(&key(Key::Char('\t'))));
    e.config.tab_emit_spaces = false;
    assert!(e.input_defined(&key(Key::Char('\t'))));
    e.cursor.cur_y = usize::MAX;
    assert!(!e.input_defined(&chord(Key::Char('l'), Key::Char('d'))));
}

#[test]
fn an_input_is_checked_then_taken() {
    let mut e = editor(&["ab", "cd"]);
    e.cursor.update_pos((1, 0), false);
    let input = key(Key::Down);
    assert!(e.check_input(&input));
    assert_eq!((e.cursor.past_x, e.cursor.past_y), (1, 0));
    match e.step_input(input) {
        Some((result, action)) => {
            assert!(result == iedit::commands::CommandExecutionResult::Continue);
            assert!(action.is_none());
        }
        None => panic!("expected a command"),
    }
    assert_eq!(e.cursor.pos(), (1, 1));
    assert_eq!((e.cursor.past_x, e.cursor.past_y), (1, 0));
    // An input that gives no command changes only the last position.
    assert!(e.check_input(&Input::NoOp));
    assert!(e.step_input(Input::NoOp).is_none());
    assert_eq!((e.cursor.past_x, e.cursor.past_y), (1, 1));
    // A tab with no tab size cannot be taken.
    e.config.tab_size = 0;
    assert!(!e.check_input(&key(Key::Char('\t'))));
}
