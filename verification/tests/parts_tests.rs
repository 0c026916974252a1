use iedit::autocomplete::EditorAutocomplete;
use iedit::basic::{self, compute_frame, EditorState, MovementDirection};
use iedit::clipboard::BuiltinClipboardContext;
use iedit::commands::Text;
use iedit::config::EditorConfig;
use iedit::document::Document;
use iedit::editor::Editor;
use iedit::simple::{DocumentEdit, LineRenderer, Segment};
use iedit::highlight::RangeHighlight;
use iedit::terminal::UILayout;
use iedit::text::{chars_of, parse_unsigned_chars, trimmed, usize_chars};
use iedit::viewport::Viewport;

fn words(ws: &[&str]) -> Vec<Vec<char>> {
    ws.iter().map(|w| w.chars().collect()).collect()
}

fn s(v: &[char]) -> String {
    v.iter().collect()
}

#[test]
fn displayable_choices_follow_selection() {
    let mut a = EditorAutocomplete::new();
    a.choices = words(&["a", "b", "c", "d", "e"]);
    assert_eq!(a.get_displayable_choices(3), &words(&["a", "b", "c"])[..]);
    a.selected_idx = 3;
    assert_eq!(a.get_displayable_choices(3), &words(&["b", "c", "d"])[..]);
    a.selected_idx = 4;
    assert_eq!(a.get_displayable_choices(3), &words(&["c", "d", "e"])[..]);
    a.selected_idx = 9;
    assert_eq!(a.get_displayable_choices(3), &words(&["c", "d", "e"])[..]);
    assert_eq!(a.get_displayable_choices(10), &words(&["a", "b", "c", "d", "e"])[..]);
    assert!(a.get_displayable_choices(0).is_empty());
}

#[test]
fn selected_choice_is_taken_out() {
    let mut a = EditorAutocomplete::new();
    a.choices = words(&["alpha", "beta", "gamma"]);
    a.written_offset = 2;
    assert_eq!(s(&a.get_selected_choice()), "pha");
    assert_eq!(a.choices, words(&["gamma", "beta"]));
    a.selected_idx = 5;
    assert!(a.get_selected_choice().is_empty());
    assert_eq!(a.choices.len(), 2);
}

#[test]
fn builtin_clipboard_round_trip() {
    let mut c = BuiltinClipboardContext::new();
    assert!(c.get_text().is_none());
    c.set_text(Text::Lines(words(&["x", "yz"])));
    match c.get_text() {
        Some(Text::Lines(ls)) => assert_eq!(ls, words(&["x", "yz"])),
        _ => panic!("expected lines"),
    }
    match c.get_text() {
        Some(Text::Lines(ls)) => assert_eq!(ls.len(), 2),
        _ => panic!("the text stays"),
    }
}

#[test]
fn edit_side_effects_place_cursor() {
    let doc = Document { lines: vec![vec![]; 3], modified: false };
    let ui = UILayout { ui_origin: (1, 1), term_width: 80, term_height: 24, editor_lines: 20 };
    let mut e = Editor::new(doc, 0, EditorConfig::default(), ui);
    e.apply_edit_side_effects(&DocumentEdit::InsertCharAt { pos: (3, 1), ch: 'a' });
    assert_eq!(e.cursor.pos(), (4, 1));
    e.apply_edit_side_effects(&DocumentEdit::DeleteCharAt { pos: (0, 1) });
    assert_eq!(e.cursor.pos(), (0, 1));
    e.apply_edit_side_effects(&DocumentEdit::InsertStringAt { pos: (1, 0), string: String::from("é!") });
    assert_eq!(e.cursor.pos(), (4, 0));
    e.apply_edit_side_effects(&DocumentEdit::DeleteRange { x_from: 2, x_to: 5, y: 2 });
    assert_eq!(e.cursor.pos(), (2, 2));
    e.apply_edit_side_effects(&DocumentEdit::InsertStringsAtMultiline { pos: (5, 1), strings: vec![String::new(); 3] });
    assert_eq!(e.cursor.pos(), (0, 4));
    e.apply_edit_side_effects(&DocumentEdit::ReplaceRangeMultiline {
        pos_from: (1, 1),
        pos_to: (2, 2),
        strings: vec![String::from("ab"), String::from("héllo")],
    });
    assert_eq!(e.cursor.pos(), (5, 3));
    e.apply_edit_side_effects(&DocumentEdit::DeleteRangeMultiline { pos_from: (7, 0), pos_to: (1, 1) });
    assert_eq!(e.cursor.pos(), (7, 0));
}

fn texts(segs: &[Segment]) -> Vec<String> {
    segs.iter()
        .map(|seg| match seg {
            Segment::Text(t) => s(t),
            Segment::HighlightStart => "[".to_string(),
            Segment::HighlightEnd => "]".to_string(),
        })
        .collect()
}

#[test]
fn legacy_line_segments() {
    let line: Vec<char> = "abcdefgh".chars().collect();
    let r = LineRenderer::new(&line);
    assert_eq!(texts(&r.render_to()), vec!["abcdefgh"]);
    let r = LineRenderer::new(&line).with_display_range((2, 6)).with_selection_highlight(RangeHighlight::Range(1, 3));
    assert_eq!(texts(&r.render_to()), vec!["c", "[", "de", "]", "f"]);
    let r = LineRenderer::new(&line).with_selection_highlight(RangeHighlight::Before(3));
    assert_eq!(texts(&r.render_to()), vec!["[", "abc", "]", "defgh"]);
    let r = LineRenderer::new(&line).with_selection_highlight(RangeHighlight::After(30));
    assert_eq!(texts(&r.render_to()), vec!["]", "abcdefgh", "[", ""]);
    let r = LineRenderer::new(&line).with_selection_highlight(RangeHighlight::WholeLine);
    assert_eq!(texts(&r.render_to()), vec!["[", "abcdefgh", "]"]);
    let r = LineRenderer::new(&line).with_selection_highlight(RangeHighlight::Range(6, 2));
    assert_eq!(texts(&r.render_to()), vec!["abcdef", "[", "", "]", "gh"]);
}

fn basic_editor(lines: &[&str]) -> basic::Editor {
    basic::Editor {
        file_name: "notes.txt".chars().collect(),
        file_lines: words(lines),
        state: EditorState {
            status_text: vec![],
            viewport: Viewport::new(10, 0),
            cursor_pos_x: 0,
            cursor_pos_y: 0,
            cursor_file_row: 0,
            cursor_file_col: 0,
            ideal_cursor_pos_x: 0,
            cursor_vel_x: 0,
            cursor_vel_y: 0,
            is_file_modified: false,
            is_selecting: false,
        },
        config: basic::EditorConfig::default(),
        term_width: 80,
    }
}

#[test]
fn first_editor_moves_and_clamps() {
    let mut e = basic_editor(&["abc", "de"]);
    e.move_cursor_up();
    e.move_cursor_left();
    assert_eq!((e.state.cursor_pos_x, e.state.cursor_pos_y), (0, 0));
    for _ in 0..5 {
        e.move_cursor_down();
        e.move_cursor_right();
    }
    e.clamp_cursor();
    assert_eq!((e.state.cursor_pos_x, e.state.cursor_pos_y), (2, 1));
    assert_eq!(s(e.get_current_line()), "de");
    e.state.is_file_modified = true;
    e.update_status_text();
    assert_eq!(s(&e.state.status_text), "notes.txt* | Ln 2, Col 3 | 2 lines");
    assert!(MovementDirection::Up != MovementDirection::Down);
    let c = basic::EditorConfig::default();
    assert_eq!((c.n_lines, c.horizontal_margin, c.vertical_margin, c.show_line_numbers), (0, 4, 4, true));
}

#[test]
fn frames_scroll_near_edges() {
    assert_eq!(compute_frame(5, 5, 0, 10, 100, 3), (0, 10, 0));
    assert_eq!(compute_frame(8, 8, 1, 10, 100, 3), (0 + 1, 10 + 1, 1));
    assert_eq!(compute_frame(30, 1, -1, 10, 100, 3), (26, 36, -3));
    assert_eq!(compute_frame(30, 2, -1, 10, 100, 3), (25, 35, -3));
    assert_eq!(compute_frame(2, 0, -1, 10, 100, 3), (0, 10, -2));
    assert_eq!(compute_frame(1, 1, -1, 10, 100, 3), (0, 10, 0));
    assert_eq!(compute_frame(9, 9, 1, 10, 10, 3), (2, 12, 2));
}

#[test]
fn text_helpers() {
    assert_eq!(s(&chars_of("héllo")), "héllo");
    assert_eq!(s(&trimmed(&" \t a b \u{2003}".chars().collect::<Vec<_>>())), "a b");
    assert_eq!(parse_unsigned_chars(&"+42".chars().collect::<Vec<_>>(), 100), Some(42));
    assert_eq!(parse_unsigned_chars(&"101".chars().collect::<Vec<_>>(), 100), None);
    assert_eq!(parse_unsigned_chars(&"18446744073709551615".chars().collect::<Vec<_>>(), u64::MAX), Some(u64::MAX));
    assert_eq!(parse_unsigned_chars(&"18446744073709551616".chars().collect::<Vec<_>>(), u64::MAX), None);
    assert_eq!(s(&usize_chars(0)), "0");
    assert_eq!(s(&usize_chars(1907)), "1907");
}
