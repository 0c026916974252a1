use iedit::commands::{CommandExecutionResult, CursorMovement, EditOperation, EditorCommand, Text};
use iedit::config::EditorConfig;
use iedit::document::Document;
use iedit::editor::{Editor, Popup};
use iedit::execute::EditorAction;
use iedit::keys::Key;
use iedit::modes::EditorMode;
use iedit::search::SearchItem;
use iedit::status::SubmitAction;
use iedit::terminal::UILayout;

fn editor(lines: &[&str]) -> Editor {
    let doc = Document { lines: lines.iter().map(|l| l.chars().collect()).collect(), modified: false };
    let ui = UILayout { ui_origin: (1, 1), term_width: 80, term_height: 24, editor_lines: 20 };
    Editor::new(doc, 0, EditorConfig::default(), ui)
}

fn s(v: &[char]) -> String {
    v.iter().collect()
}

fn chars(t: &str) -> Vec<char> {
    t.chars().collect()
}

#[test]
fn new_editor_opens_at_line() {
    let e = Editor::new(
        Document { lines: vec![vec![]; 5], modified: false },
        3,
        EditorConfig::default(),
        UILayout { ui_origin: (1, 1), term_width: 80, term_height: 24, editor_lines: 20 },
    );
    assert_eq!(e.cursor.pos(), (0, 2));
    let e = Editor::new(
        Document { lines: vec![vec![]; 5], modified: false },
        40,
        EditorConfig::default(),
        UILayout { ui_origin: (1, 1), term_width: 80, term_height: 24, editor_lines: 20 },
    );
    assert_eq!(e.cursor.pos(), (0, 5));
    assert!(matches!(e.mode, EditorMode::Insert));
    assert!(e.needs_full_rerender);
}

#[test]
fn quit_warns_once_with_unsaved_changes() {
    let mut e = editor(&["x"]);
    e.document.modified = true;
    let (r, _) = e.execute_command(EditorCommand::Quit);
    assert!(r == CommandExecutionResult::Continue);
    assert_eq!(s(&e.status_bar.notification), "\x1b[33mBuffer contains unsaved changes.\x1b[0m Ctrl-s: save, Ctrl-q: quit");
    let (r, _) = e.execute_command(EditorCommand::Quit);
    assert!(r == CommandExecutionResult::ShouldQuit);
}

#[test]
fn quit_without_changes_or_confirmation() {
    let mut e = editor(&["x"]);
    assert!(e.quit(false) == CommandExecutionResult::ShouldQuit);
    e.document.modified = true;
    e.config.confirm_quit_unsaved_changes = false;
    assert!(e.quit(false) == CommandExecutionResult::ShouldQuit);
    e.config.confirm_quit_unsaved_changes = true;
    assert!(e.quit(true) == CommandExecutionResult::ShouldQuit);
}

#[test]
fn toggles_and_popups() {
    let mut e = editor(&["x"]);
    e.execute_command(EditorCommand::ToggleLineNumbers);
    assert!(!e.config.show_line_numbers);
    e.execute_command(EditorCommand::ToggleLineNumbers);
    assert!(e.config.show_line_numbers);
    e.execute_command(EditorCommand::ToggleLockSelection);
    assert!(e.is_selection_locked);
    e.execute_command(EditorCommand::DisplayHelp);
    assert!(e.displayed_popup == Some(Popup::Help));
    e.execute_command(EditorCommand::DisplaySelectionChordHelp);
    assert!(e.displayed_popup == Some(Popup::SelectionChord));
}

#[test]
fn scrolling_the_viewport() {
    let mut e = editor(&["x"; 50]);
    e.execute_command(EditorCommand::ScrollViewportUp);
    assert_eq!(e.viewport.vertical_offset, 0);
    e.execute_command(EditorCommand::ScrollViewportDown);
    assert_eq!(e.viewport.vertical_offset, 1);
    e.viewport.top_line = 30;
    e.execute_command(EditorCommand::ScrollViewportDown);
    assert_eq!(e.viewport.vertical_offset, 1);
    e.execute_command(EditorCommand::ScrollViewportUp);
    assert_eq!(e.viewport.vertical_offset, 0);
}

#[test]
fn end_of_run_message() {
    let mut e = editor(&["x"]);
    e.is_running_external_command = true;
    e.execute_command(EditorCommand::EndFileExecution(chars("exit 0"), true));
    assert_eq!(s(&e.status_bar.notification), "exit 0. Ctrl-k + v + o: view output");
    assert!(!e.is_running_external_command);
    e.execute_command(EditorCommand::EndFileExecution(chars("exit 1"), false));
    assert_eq!(s(&e.status_bar.notification), "exit 1. output unavailable");
    e.execute_command(EditorCommand::DisplayMessage(chars("hi")));
    assert_eq!(s(&e.status_bar.notification), "hi");
}

#[test]
fn save_asks_the_outside() {
    let mut e = editor(&["x"]);
    let (_, a) = e.execute_command(EditorCommand::Save);
    assert!(matches!(a, Some(EditorAction::Save { display_notification: true })));
}

#[test]
fn selecting_movement_sets_and_keeps_anchor() {
    let mut e = editor(&["hello", "world"]);
    e.cursor.update_pos((1, 0), false);
    e.execute_command(EditorCommand::MoveCursor { movement: CursorMovement::Right(1), with_selection: true });
    assert_eq!(e.cursor.selection_anchor, Some((1, 0)));
    e.execute_command(EditorCommand::MoveCursor { movement: CursorMovement::Down(1), with_selection: true });
    assert_eq!(e.cursor.selection_anchor, Some((1, 0)));
    assert_eq!(e.cursor.pos(), (2, 1));
    e.needs_full_rerender = false;
    e.execute_command(EditorCommand::MoveCursor { movement: CursorMovement::StartOfLine, with_selection: false });
    assert!(e.cursor.selection_anchor.is_none());
    assert!(e.needs_full_rerender);
    assert_eq!(e.cursor.pos(), (0, 1));
}

#[test]
fn movements_to_fixed_places() {
    let mut e = editor(&["hello", "world", "!"]);
    e.execute_command(EditorCommand::MoveCursor { movement: CursorMovement::EndOfFile, with_selection: false });
    assert_eq!(e.cursor.pos(), (0, 3));
    e.execute_command(EditorCommand::MoveCursor { movement: CursorMovement::StartOfFile, with_selection: false });
    e.execute_command(EditorCommand::MoveCursor { movement: CursorMovement::Down(1), with_selection: false });
    e.execute_command(EditorCommand::MoveCursor { movement: CursorMovement::EndOfLine, with_selection: false });
    // The end of the line the cursor is on.
    assert_eq!(e.cursor.pos(), (usize::MAX, 1));
    e.clamp_cursor();
    assert_eq!(e.cursor.pos(), (5, 1));
    e.execute_command(EditorCommand::MoveCursor { movement: CursorMovement::AbsolutePos((2, 2)), with_selection: false });
    assert_eq!(e.cursor.pos(), (2, 2));
    e.clamp_cursor();
    assert_eq!(e.cursor.pos(), (1, 2));
    e.execute_command(EditorCommand::MoveCursor { movement: CursorMovement::StartOfFile, with_selection: false });
    assert_eq!(e.cursor.pos(), (0, 0));
}

#[test]
fn clamp_keeps_cursor_in_document() {
    let mut e = editor(&["ab", "abcdef"]);
    e.cursor.update_pos((9, 7), false);
    e.clamp_cursor();
    assert_eq!(e.cursor.pos(), (0, 2));
    e.cursor.update_pos((9, 1), false);
    e.clamp_cursor();
    assert_eq!(e.cursor.pos(), (6, 1));
}

#[test]
fn document_movements_ask_and_take_the_answer() {
    let mut e = editor(&["a b", "", "c"]);
    let (_, a) = e.execute_command(EditorCommand::MoveCursor { movement: CursorMovement::NextParagraph, with_selection: false });
    assert!(matches!(a, Some(EditorAction::Locate(CursorMovement::NextParagraph))));
    e.needs_full_rerender = false;
    e.finish_movement(CursorMovement::NextParagraph, Some((0, 1)));
    assert_eq!(e.cursor.pos(), (0, 1));
    assert!(e.needs_full_rerender);
    e.finish_movement(CursorMovement::MatchingParenthesis, None);
    assert_eq!(e.cursor.pos(), (0, 1));
}

#[test]
fn jumps_through_history() {
    let mut e = editor(&["x"; 40]);
    e.execute_command(EditorCommand::MoveCursor { movement: CursorMovement::Down(20), with_selection: false });
    assert_eq!(e.cursor.pos(), (0, 20));
    e.execute_command(EditorCommand::MoveCursor { movement: CursorMovement::PreviousJump, with_selection: false });
    assert_eq!(e.cursor.pos(), (0, 0));
}

#[test]
fn yank_one_line_and_several() {
    let mut e = editor(&["hello", "big", "world"]);
    e.cursor.selection_anchor = Some((1, 0));
    e.cursor.update_pos((4, 0), false);
    let (_, a) = e.execute_command(EditorCommand::YankSelection);
    match a {
        Some(EditorAction::Yank { text: Text::String(t), notice, cut: None }) => {
            assert_eq!(s(&t), "ell");
            assert_eq!(s(&notice), "Yanked 3 characters");
        },
        _ => panic!("expected a yank"),
    }
    e.cursor.update_pos((2, 2), false);
    let (_, a) = e.execute_command(EditorCommand::YankSelection);
    match a {
        Some(EditorAction::Yank { text: Text::Lines(ls), notice, cut: None }) => {
            let ls: Vec<String> = ls.iter().map(|l| s(l)).collect();
            assert_eq!(ls, vec!["ello", "big", "wo"]);
            assert_eq!(s(&notice), "Yanked 3 lines");
        },
        _ => panic!("expected a yank of lines"),
    }
}

#[test]
fn yank_past_the_last_line() {
    let mut e = editor(&["hello", "big"]);
    e.cursor.selection_anchor = Some((3, 0));
    e.cursor.update_pos((0, 2), false);
    let (_, a) = e.execute_command(EditorCommand::YankSelection);
    match a {
        Some(EditorAction::Yank { text: Text::Lines(ls), .. }) => {
            let ls: Vec<String> = ls.iter().map(|l| s(l)).collect();
            assert_eq!(ls, vec!["lo", "big"]);
        },
        _ => panic!("expected a yank of lines"),
    }
}

#[test]
fn cut_moves_cursor_to_start() {
    let mut e = editor(&["hello"]);
    e.cursor.selection_anchor = Some((4, 0));
    e.cursor.update_pos((1, 0), false);
    let (_, a) = e.execute_command(EditorCommand::CutSelection);
    match a {
        Some(EditorAction::Yank { cut: Some(EditOperation::Replacement { pos_from, pos_to, text: Text::Empty }), .. }) => {
            assert_eq!((pos_from, pos_to), ((1, 0), (4, 0)))
        },
        _ => panic!("expected a cut"),
    }
    assert!(e.cursor.selection_anchor.is_none());
    assert_eq!(e.cursor.pos(), (1, 0));
    let (_, a) = e.execute_command(EditorCommand::CutSelection);
    assert!(a.is_none());
}

#[test]
fn paste_reports_and_replaces_selection() {
    let mut e = editor(&["hello"]);
    let (notice, op) = e.paste_text(Text::String(chars("abc")));
    assert_eq!(s(&notice.unwrap()), "Pasted 3 characters");
    assert!(matches!(op, EditOperation::Insertion { pos: (0, 0), .. }));
    e.cursor.selection_anchor = Some((2, 0));
    let (notice, op) = e.paste_text(Text::Lines(vec![chars("a"), chars("b")]));
    assert_eq!(s(&notice.unwrap()), "Pasted 2 lines");
    assert!(matches!(op, EditOperation::Replacement { pos_from: (0, 0), pos_to: (2, 0), .. }));
    assert!(e.cursor.selection_anchor.is_none());
    let (notice, _) = e.paste_text(Text::Char('q'));
    assert!(notice.is_none());
    e.finish_paste(Some((3, 0)));
    assert_eq!(e.cursor.pos(), (3, 0));
}

#[test]
fn edits_wait_for_the_document() {
    let mut e = editor(&["hello"]);
    e.first_quit_sent = true;
    let (_, a) = e.execute_command(EditorCommand::Edit(EditOperation::Insertion { pos: (0, 0), text: Text::Char('a') }));
    assert!(matches!(a, Some(EditorAction::ApplyEdit { is_typing: true, .. })));
    assert!(e.first_quit_sent);
    let typing = e.finish_edit(Some((1, 0)), true);
    assert!(typing);
    assert!(!e.first_quit_sent);
    assert_eq!(e.cursor.pos(), (1, 0));
    let typing = e.finish_edit(Some((0, 1)), true);
    assert!(!typing);
    let (_, a) = e.execute_command(EditorCommand::Edit(EditOperation::Deletion { pos: (0, 0) }));
    assert!(matches!(a, Some(EditorAction::ApplyEdit { is_typing: false, .. })));
    let (_, a) = e.execute_command(EditorCommand::UndoLastEdit);
    assert!(matches!(a, Some(EditorAction::Undo)));
}

#[test]
fn autocomplete_flow() {
    let mut e = editor(&["fo"]);
    e.cursor.update_pos((2, 0), false);
    let prefix = e.autocomplete_prefix(0);
    assert_eq!(s(&prefix), "fo");
    e.update_autocomplete_choices(0, vec![chars("foo"), chars("food")]);
    assert!(e.is_autocomplete_open);
    assert_eq!(e.autocomplete.written_offset, 2);
    e.execute_command(EditorCommand::AutocompleteNext);
    assert_eq!(e.autocomplete.selected_idx, 1);
    e.execute_command(EditorCommand::AutocompletePrevious);
    e.execute_command(EditorCommand::AutocompletePrevious);
    assert_eq!(e.autocomplete.selected_idx, 0);
    let (_, a) = e.execute_command(EditorCommand::AutocompleteInsert);
    match a {
        Some(EditorAction::ApplyEdit { op: EditOperation::Insertion { pos: (2, 0), text: Text::String(t) }, is_typing: false }) => {
            assert_eq!(s(&t), "o")
        },
        _ => panic!("expected the rest of the word"),
    }
    assert!(!e.is_autocomplete_open);
    assert_eq!(e.autocomplete.choices, vec![chars("food")]);
}

#[test]
fn find_with_selection_and_without() {
    let mut e = editor(&["abcabc"]);
    e.cursor.selection_anchor = Some((0, 0));
    e.cursor.update_pos((2, 0), false);
    let (_, a) = e.execute_command(EditorCommand::FindMatchForward);
    match a {
        Some(EditorAction::FindLiteral { origin: (2, 0), literal, forward: true }) => assert_eq!(s(&literal), "abc"),
        _ => panic!("expected a literal search"),
    }
    assert!(e.cursor.selection_anchor.is_none());
    let (_, a) = e.execute_command(EditorCommand::FindMatchBackward);
    assert!(matches!(a, Some(EditorAction::FindWordAt { pos: (2, 0), forward: false })));
    let a = e.find_word_match(Some((0, 1)), false);
    match a {
        Some(EditorAction::FindLiteral { literal, forward: false, .. }) => assert_eq!(s(&literal), "ab"),
        _ => panic!("expected a literal search"),
    }
    assert!(e.find_word_match(None, true).is_none());
    assert!(e.finish_find(Some(((3, 0), (5, 0))), true).is_none());
    assert_eq!(e.cursor.pos(), (3, 0));
    assert_eq!(e.matched_range, Some(((3, 0), (5, 0))));
    match e.finish_find(None, true) {
        Some(EditorAction::Notify(m)) => assert_eq!(s(&m), "Already at last match"),
        _ => panic!("expected a notice"),
    }
    match e.finish_find(None, false) {
        Some(EditorAction::Notify(m)) => assert_eq!(s(&m), "Already at first match"),
        _ => panic!("expected a notice"),
    }
}

#[test]
fn find_across_lines_is_refused() {
    let mut e = editor(&["ab", "cd"]);
    e.cursor.selection_anchor = Some((0, 0));
    e.cursor.update_pos((1, 1), false);
    match e.execute_command(EditorCommand::FindMatchForward).1 {
        Some(EditorAction::Notify(m)) => assert_eq!(s(&m), "Can't yet match across lines"),
        _ => panic!("expected a notice"),
    }
}

#[test]
fn clear_selection_resets_everything() {
    let mut e = editor(&["ab"]);
    e.cursor.selection_anchor = Some((1, 0));
    e.is_selection_locked = true;
    e.is_autocomplete_open = true;
    e.matched_range = Some(((0, 0), (1, 0)));
    e.search_item = Some(SearchItem::PromptString);
    e.execute_command(EditorCommand::ClearSelection);
    assert!(e.cursor.get_selected_range().is_none());
    assert!(!e.is_selection_locked && !e.is_autocomplete_open);
    assert!(e.matched_range.is_none() && e.search_item.is_none());
}

#[test]
fn prompt_line_editing() {
    let mut e = editor(&[""]);
    e.execute_command(EditorCommand::OpenCommandLine);
    assert!(matches!(e.mode, EditorMode::Prompt("> ")));
    assert!(e.status_bar.submit_action == Some(SubmitAction::CommandLine));
    e.execute_command(EditorCommand::InsertCharPrompt { pos_x: 0, ch: 'a' });
    e.execute_command(EditorCommand::InsertCharPrompt { pos_x: 1, ch: 'c' });
    e.execute_command(EditorCommand::InsertCharPrompt { pos_x: 1, ch: 'b' });
    assert_eq!(s(&e.status_bar.prompt_line), "abc");
    assert_eq!(e.status_bar.cursor_pos, 2);
    e.execute_command(EditorCommand::MovePromptCursorRight);
    e.execute_command(EditorCommand::MovePromptCursorRight);
    assert_eq!(e.status_bar.cursor_pos, 3);
    e.execute_command(EditorCommand::DeleteCharPrompt { pos_x: 3 });
    assert_eq!(s(&e.status_bar.prompt_line), "ab");
    e.execute_command(EditorCommand::DeleteCharPrompt { pos_x: 0 });
    assert_eq!(s(&e.status_bar.prompt_line), "ab");
    e.execute_command(EditorCommand::MovePromptCursorLeft);
    assert_eq!(e.status_bar.cursor_pos, 1);
    let (_, a) = e.execute_command(EditorCommand::SubmitPrompt);
    match a {
        Some(EditorAction::Submit { action: SubmitAction::CommandLine, prompt }) => assert_eq!(s(&prompt), "ab"),
        _ => panic!("expected a submission"),
    }
    assert!(e.status_bar.prompt_line.is_empty());
    assert!(e.status_bar.submit_action.is_none());
    assert!(e.finish_submit(CommandExecutionResult::Continue) == CommandExecutionResult::Continue);
    assert!(matches!(e.mode, EditorMode::Insert));
}

#[test]
fn prompt_without_action_returns_to_insert() {
    let mut e = editor(&[""]);
    e.mode = EditorMode::Prompt("? ");
    let (_, a) = e.execute_command(EditorCommand::SubmitPrompt);
    assert!(a.is_none());
    assert!(matches!(e.mode, EditorMode::Insert));
    e.prompt_user("Run with: ", SubmitAction::RunWith);
    assert!(e.finish_submit(CommandExecutionResult::ShouldQuit) == CommandExecutionResult::ShouldQuit);
    assert!(matches!(e.mode, EditorMode::Prompt("Run with: ")));
}

#[test]
fn goto_follows_the_typed_line() {
    let mut e = editor(&["x"; 30]);
    e.cursor.update_pos((0, 5), false);
    e.execute_command(EditorCommand::SwitchMode(EditorMode::Goto { original_cursor_pos: (0, 5) }));
    e.execute_command(EditorCommand::InsertCharPrompt { pos_x: 0, ch: '1' });
    assert_eq!(e.cursor.pos(), (0, 0));
    e.execute_command(EditorCommand::InsertCharPrompt { pos_x: 1, ch: '2' });
    assert_eq!(e.cursor.pos(), (0, 11));
    e.execute_command(EditorCommand::SubmitPrompt);
    assert!(matches!(e.mode, EditorMode::Insert));
    assert_eq!(e.cursor.jump_history, vec![(0, 5)]);
    assert_eq!(e.cursor.jump_history_head, 1);
    assert!(e.status_bar.prompt_line.is_empty());
    // Going to the previous jump returns to where goto started.
    e.execute_command(EditorCommand::MoveCursor { movement: CursorMovement::PreviousJump, with_selection: false });
    assert_eq!(e.cursor.pos(), (0, 5));
}

#[test]
fn goto_cancel_restores_cursor() {
    let mut e = editor(&["x"; 30]);
    e.cursor.update_pos((0, 5), false);
    e.mode = EditorMode::Goto { original_cursor_pos: (0, 5) };
    e.execute_command(EditorCommand::InsertCharPrompt { pos_x: 0, ch: '9' });
    assert_eq!(e.cursor.pos(), (0, 8));
    e.execute_command(EditorCommand::InsertCharPrompt { pos_x: 1, ch: '0' });
    e.execute_command(EditorCommand::SwitchMode(EditorMode::Insert));
    assert_eq!(e.cursor.pos(), (0, 5));
    assert!(matches!(e.mode, EditorMode::Insert));
}

#[test]
fn search_compiles_prompt_or_takes_it_literally() {
    let mut e = editor(&["a+b"]);
    e.mode = EditorMode::Search { original_cursor_pos: (0, 0), is_backwards: false };
    e.execute_command(EditorCommand::InsertCharPrompt { pos_x: 0, ch: 'a' });
    let (_, a) = e.execute_command(EditorCommand::InsertCharPrompt { pos_x: 1, ch: '(' });
    match a {
        Some(EditorAction::Search { origin: (0, 0), backwards: false, item: SearchItem::PromptString }) => {},
        _ => panic!("expected a literal search"),
    }
    let (_, a) = e.execute_command(EditorCommand::DeleteCharPrompt { pos_x: 2 });
    let item = match a {
        Some(EditorAction::Search { item: item @ SearchItem::Regex(_), .. }) => item,
        _ => panic!("expected a regex search"),
    };
    // The regex searched with is the one compiled from the prompt line.
    match &item {
        SearchItem::Regex(r) => {
            assert_eq!(s(r.pattern()), "a");
            assert!(r.regex().is_match("xa"));
        }
        SearchItem::PromptString => unreachable!(),
    }
    e.finish_incremental_search(Some(((0, 0), (1, 0))), item);
    assert!(matches!(e.search_item, Some(SearchItem::Regex(_))));
    assert_eq!(e.matched_range, Some(((0, 0), (1, 0))));
    let (_, a) = e.execute_command(EditorCommand::FindMatchForward);
    assert!(matches!(a, Some(EditorAction::SearchAgain { origin: (0, 0), backwards: false })));
    e.finish_search_again(Some(((2, 0), (3, 0))));
    assert_eq!(e.cursor.pos(), (2, 0));
    e.execute_command(EditorCommand::SubmitPrompt);
    assert!(e.search_item.is_none());
    assert_eq!(e.cursor.jump_history, vec![(0, 0)]);
    assert_eq!(e.cursor.jump_history_head, 1);
}

#[test]
fn executor_keys() {
    let e = editor(&["#!/bin/sh -e", "echo"]);
    assert_eq!(s(&e.get_executor_by_key(Key::Char('p'), &chars("/tmp/run.sh")).unwrap()), "/usr/bin/env python3");
    assert_eq!(s(&e.get_executor_by_key(Key::Char('P'), &chars("/tmp/run.sh")).unwrap()), "/usr/bin/env python");
    assert_eq!(s(&e.get_executor_by_key(Key::Char('n'), &chars("/tmp/run.sh")).unwrap()), "/usr/bin/env node");
    assert_eq!(s(&e.get_executor_by_key(Key::Char('b'), &chars("/tmp/run.sh")).unwrap()), "/usr/bin/env bash");
    assert_eq!(s(&e.get_executor_by_key(Key::Char('x'), &chars("/tmp/run.sh")).unwrap()), "/bin/sh -e");
    assert!(e.get_executor_by_key(Key::Char('z'), &chars("/tmp/run.sh")).is_none());
    let e = editor(&["print(1)"]);
    assert!(e.get_executor_by_key(Key::Char('x'), &chars("/tmp/notes.txt")).is_none());
    // Without a `#!` line the extension picks the runner.
    assert_eq!(s(&e.get_executor_by_key(Key::Char('x'), &chars("/tmp/a.py")).unwrap()), "/usr/bin/env python3");
    assert_eq!(s(&e.get_executor_by_key(Key::Char('x'), &chars("b.js")).unwrap()), "/usr/bin/env node");
    assert_eq!(s(&e.get_executor_by_key(Key::Char('x'), &chars("c.sh")).unwrap()), "/usr/bin/env bash");
    assert!(editor(&[]).get_executor_by_key(Key::Char('x'), &chars("py")).is_none());
    let (_, a) = editor(&[""]).execute_command(EditorCommand::ExecuteFile(Key::Char('p')));
    assert!(matches!(a, Some(EditorAction::ExecuteFile(Key::Char('p')))));
}

#[test]
fn execution_output_swaps_documents() {
    let mut e = editor(&["code"]);
    let mut output = Document { lines: vec![chars("out")], modified: false };
    e.toggle_execution_output(&mut output);
    assert!(e.is_viewing_execution_output);
    assert_eq!(e.document.lines, vec![chars("out")]);
    assert_eq!(output.lines, vec![chars("code")]);
    e.toggle_execution_output(&mut output);
    assert!(!e.is_viewing_execution_output);
    assert_eq!(e.document.lines, vec![chars("code")]);
}

#[test]
fn commands_are_defined_in_ordinary_states() {
    let e = editor(&["hello", "world"]);
    assert!(e.command_defined(&EditorCommand::YankSelection));
    assert!(e.command_defined(&EditorCommand::ScrollViewportDown));
    assert!(e.command_defined(&EditorCommand::AutocompleteNext));
}

#[test]
fn yank_is_undefined_for_a_selection_past_the_document() {
    let mut e = editor(&["hi"]);
    // The anchor lies on a line the document no longer has.
    e.cursor.selection_anchor = Some((3, 0));
    e.cursor.update_pos((0, 5), false);
    assert!(!e.command_defined(&EditorCommand::CutSelection));
    e.cursor.selection_anchor = Some((1, 0));
    e.cursor.update_pos((2, 0), false);
    assert!(e.command_defined(&EditorCommand::CutSelection));
}

#[test]
fn prompt_edits_are_undefined_past_the_prompt_line() {
    let mut e = editor(&["x"]);
    e.mode = EditorMode::Goto { original_cursor_pos: (0, 0) };
    assert!(!e.command_defined(&EditorCommand::InsertCharPrompt { pos_x: 3, ch: '1' }));
    assert!(e.command_defined(&EditorCommand::InsertCharPrompt { pos_x: 0, ch: '1' }));
    e.status_bar.cursor_pos = usize::MAX;
    assert!(!e.command_defined(&EditorCommand::MovePromptCursorRight));
}

#[test]
fn clamping_twice_is_clamping_once() {
    let mut e = editor(&["ab", "abcdef"]);
    e.cursor.update_pos((9, 7), false);
    e.clamp_cursor();
    let once = e.cursor.pos();
    e.clamp_cursor();
    assert_eq!(e.cursor.pos(), once);
}

#[test]
fn prompt_cursor_stays_on_the_prompt_line() {
    let mut e = editor(&["x"]);
    e.prompt_user("File name: ", SubmitAction::SetFile);
    e.execute_command(EditorCommand::InsertCharPrompt { pos_x: 0, ch: 'a' });
    e.execute_command(EditorCommand::InsertCharPrompt { pos_x: 1, ch: 'b' });
    e.execute_command(EditorCommand::MovePromptCursorRight);
    assert_eq!(e.status_bar.cursor_pos, 2);
    e.execute_command(EditorCommand::DeleteCharPrompt { pos_x: 2 });
    assert_eq!(e.status_bar.cursor_pos, 1);
    assert_eq!(s(&e.status_bar.prompt_line), "a");
    e.execute_command(EditorCommand::MovePromptCursorLeft);
    e.execute_command(EditorCommand::MovePromptCursorLeft);
    assert_eq!(e.status_bar.cursor_pos, 0);
}
