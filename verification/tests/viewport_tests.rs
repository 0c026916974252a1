use iedit::config::EditorConfig;
use iedit::document::Document;
use iedit::editor::Editor;
use iedit::terminal::UILayout;
use iedit::viewport::Viewport;

fn doc(n: usize, width: usize) -> Document {
    Document { lines: (0..n).map(|_| vec!['x'; width]).collect(), modified: false }
}

fn ui(lines: u16, width: u16) -> UILayout {
    UILayout { ui_origin: (1, 1), term_width: width, term_height: lines + 2, editor_lines: lines }
}

#[test]
fn viewport_new_centers_the_opening_line() {
    let v = Viewport::new(10, 30);
    assert_eq!((v.top_line, v.left_col, v.pre_scroll_top_line, v.vertical_offset), (25, 0, 25, 0));
    let v = Viewport::new(10, 3);
    assert_eq!(v.top_line, 0);
}

#[test]
fn cursor_moved_off_screen_is_centered() {
    let mut e = Editor::new(doc(100, 10), 0, EditorConfig::default(), ui(10, 80));
    e.cursor.update_pos((0, 50), false);
    e.needs_full_rerender = false;
    e.adjust_viewport();
    assert_eq!(e.viewport.top_line, 45);
    assert_eq!(e.viewport.pre_scroll_top_line, 45);
    assert!(e.viewport_contains_y(50));
    assert!(e.needs_full_rerender);
}

#[test]
fn crossing_the_bottom_margin_scrolls_one_line() {
    let mut e = Editor::new(doc(100, 10), 0, EditorConfig::default(), ui(10, 80));
    e.cursor.update_pos((0, 6), false);
    e.cursor.set_last_pos();
    e.adjust_viewport();
    assert_eq!(e.viewport.top_line, 0);
    e.cursor.update_pos((0, 7), false);
    e.adjust_viewport();
    assert_eq!(e.viewport.top_line, 1);
}

#[test]
fn crossing_the_top_margin_scrolls_back() {
    let mut e = Editor::new(doc(100, 10), 21, EditorConfig::default(), ui(10, 80));
    assert_eq!(e.viewport.top_line, 16);
    e.cursor.update_pos((0, 20), false);
    e.cursor.set_last_pos();
    e.cursor.update_pos((0, 19), false);
    e.adjust_viewport();
    assert_eq!(e.viewport.top_line, 15);
}

#[test]
fn user_scroll_is_taken_up_while_cursor_visible() {
    let mut e = Editor::new(doc(100, 10), 0, EditorConfig::default(), ui(10, 80));
    e.cursor.update_pos((0, 5), false);
    e.cursor.set_last_pos();
    e.viewport.vertical_offset = 3;
    e.adjust_viewport();
    assert_eq!(e.viewport.top_line, 3);
    assert_eq!(e.viewport.vertical_offset, 0);
}

#[test]
fn top_line_never_passes_the_document_end() {
    let mut e = Editor::new(doc(3, 10), 0, EditorConfig::default(), ui(10, 80));
    e.cursor.set_last_pos();
    e.viewport.pre_scroll_top_line = 20;
    e.viewport.top_line = 0;
    e.adjust_viewport();
    assert_eq!(e.viewport.top_line, 3);
}

#[test]
fn moving_right_past_the_margin_scrolls_sideways() {
    let mut e = Editor::new(doc(5, 200), 0, EditorConfig::default(), ui(10, 80));
    e.cursor.update_pos((70, 0), false);
    e.cursor.set_last_pos();
    e.cursor.update_pos((71, 0), false);
    e.adjust_viewport();
    assert_eq!(e.viewport.left_col, 2);
    e.cursor.set_last_pos();
    e.cursor.update_pos((3, 0), false);
    e.adjust_viewport();
    assert_eq!(e.viewport.left_col, 0);
}

#[test]
fn viewport_can_adjust_in_ordinary_states() {
    let mut e = Editor::new(doc(100, 10), 0, EditorConfig::default(), ui(20, 80));
    assert!(e.can_adjust_viewport());
    e.cursor.update_pos((0, 60), false);
    assert!(e.can_adjust_viewport());
}

#[test]
fn viewport_cannot_adjust_with_margins_larger_than_the_screen() {
    // Four lines of margin on a two-line editor would make the bottom limit negative.
    let e = Editor::new(doc(100, 10), 0, EditorConfig::default(), ui(2, 80));
    assert!(!e.can_adjust_viewport());
}

#[test]
fn viewport_cannot_adjust_with_numbers_on_a_tiny_terminal() {
    let e = Editor::new(doc(5, 3), 0, EditorConfig::default(), ui(20, 5));
    assert!(!e.can_adjust_viewport());
}
