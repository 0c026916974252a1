use iedit::config::EditorConfig;
use iedit::document::Document;
use iedit::editor::Editor;
use iedit::highlight::{ColorRange, LineRenderer, Piece, RangeHighlight};
use iedit::modes::EditorMode;
use iedit::render::{popup_frame, StatusLine};
use iedit::search::SearchItem;
use iedit::terminal::UILayout;

fn editor(n: usize, width: u16) -> Editor {
    let doc = Document { lines: vec![vec!['x'; 3]; n], modified: false };
    let ui = UILayout { ui_origin: (1, 3), term_width: width, term_height: 24, editor_lines: 10 };
    Editor::new(doc, 0, EditorConfig::default(), ui)
}

fn s(v: &[char]) -> String {
    v.iter().collect()
}

#[test]
fn status_shows_position_and_percent() {
    let mut e = editor(10, 100);
    e.cursor.update_pos((4, 5), false);
    assert_eq!(s(&e.position_text()), "   6:5 - 50%");
    match e.render_status() {
        StatusLine::Position { flags, position, hint_padding } => {
            assert!(flags.is_empty());
            assert_eq!(s(&position), "   6:5 - 50%");
            let hint_bytes = "│ ^q: quit │ ^s: save │ ^t: help".len();
            assert_eq!(hint_padding, Some(100 - 12 - hint_bytes));
        },
        _ => panic!("expected the position"),
    }
}

#[test]
fn percent_is_capped() {
    let mut e = editor(2, 100);
    e.cursor.update_pos((0, 9), false);
    assert_eq!(s(&e.position_text()), "   10:1 - 100%");
    let mut e = editor(0, 100);
    e.cursor.update_pos((0, 0), false);
    assert_eq!(s(&e.position_text()), "   1:1 - 0%");
}

#[test]
fn flags_large_and_small() {
    let mut e = editor(3, 100);
    e.document.modified = true;
    e.is_viewing_execution_output = true;
    assert_eq!(e.get_flag_strings(), vec!["\x1b[30;103m modified \x1b[0m", "\x1b[30;102m cmd output \x1b[0m"]);
    e.ui.term_width = 60;
    e.is_selection_locked = true;
    assert_eq!(e.get_flag_strings(), vec!["\x1b[30;103m * \x1b[0m", "\x1b[30;104m sel \x1b[0m", "\x1b[30;102m out \x1b[0m"]);
    match e.render_status() {
        StatusLine::Position { hint_padding, .. } => {
            let hint_bytes = "│ ^q: quit │ ^s: save │ ^t: help".len();
            assert_eq!(hint_padding, Some((60usize - (3 + 5 + 5) - 12).saturating_sub(hint_bytes)));
            assert_eq!(hint_padding, Some(0));
        },
        _ => panic!("expected the position"),
    }
    e.config.show_keybindings = false;
    assert!(matches!(e.render_status(), StatusLine::Position { hint_padding: None, .. }));
}

#[test]
fn notification_and_prompt_labels() {
    let mut e = editor(3, 100);
    e.status_bar.notification = vec!['o', 'k'];
    match e.render_status() {
        StatusLine::Notification(m) => assert_eq!(s(&m), "ok"),
        _ => panic!("expected the notification"),
    }
    e.status_bar.notification.clear();
    e.mode = EditorMode::Search { original_cursor_pos: (0, 0), is_backwards: true };
    e.status_bar.cursor_pos = 3;
    match e.render_status() {
        StatusLine::Prompt { labels, cursor_pos } => {
            assert_eq!(labels, vec!["BACK_", "SEARCH ", "(regex) "]);
            assert_eq!(cursor_pos, 3);
        },
        _ => panic!("expected a prompt"),
    }
    e.search_item = Some(SearchItem::PromptString);
    e.mode = EditorMode::Search { original_cursor_pos: (0, 0), is_backwards: false };
    assert!(matches!(e.render_status(), StatusLine::Prompt { labels, .. } if labels == vec!["SEARCH ", "(exact) "]));
    e.mode = EditorMode::Goto { original_cursor_pos: (0, 0) };
    assert!(matches!(e.render_status(), StatusLine::Prompt { labels, .. } if labels == vec!["GOTO "]));
    e.mode = EditorMode::Prompt("File name: ");
    assert!(matches!(e.render_status(), StatusLine::Prompt { labels, .. } if labels == vec!["File name: "]));
}

#[test]
fn rows_and_redraws() {
    let mut e = editor(4, 100);
    assert_eq!(e.edit_buffer_rows(), (0, 4, 6));
    e.viewport.top_line = 2;
    assert_eq!(e.edit_buffer_rows(), (2, 4, 8));
    let mut big = editor(40, 100);
    big.viewport.top_line = 5;
    assert_eq!(big.edit_buffer_rows(), (5, 15, 0));
    e.needs_full_rerender = false;
    e.cursor.update_pos((0, 3), false);
    assert!(e.should_render_line(3, false));
    assert!(e.should_render_line(0, false));
    assert!(!e.should_render_line(2, false));
    assert!(e.should_render_line(2, true));
}

#[test]
fn terminal_cursor_position() {
    let mut e = editor(40, 100);
    e.cursor.update_pos((5, 12), false);
    e.viewport.top_line = 10;
    e.viewport.left_col = 2;
    assert_eq!(e.terminal_cursor_pos(), (3 + 1 + 7, 2 + 3));
    e.config.show_line_numbers = false;
    assert_eq!(e.terminal_cursor_pos(), (4, 5));
}

#[test]
fn popup_fits_the_terminal() {
    let ui = UILayout { ui_origin: (2, 5), term_width: 40, term_height: 24, editor_lines: 4 };
    assert_eq!(popup_frame(&ui, &vec![10, 20, 5], (3, 1)), (5, 6, 22, 4));
    assert_eq!(popup_frame(&ui, &vec![10], (30, 0)), (2 + 28, 5, 12, 3));
    assert_eq!(popup_frame(&ui, &vec![], (0, 0)), (2, 5, 2, 2));
}

#[test]
fn range_highlights_per_line() {
    let r = ((2, 3), (5, 3));
    assert!(RangeHighlight::new(3, &r) == RangeHighlight::Range(2, 5));
    assert!(RangeHighlight::new(4, &r) == RangeHighlight::Empty);
    let r = ((2, 3), (5, 6));
    assert!(RangeHighlight::new(3, &r) == RangeHighlight::After(2));
    assert!(RangeHighlight::new(4, &r) == RangeHighlight::WholeLine);
    assert!(RangeHighlight::new(6, &r) == RangeHighlight::Before(5));
    assert!(RangeHighlight::new(7, &r) == RangeHighlight::Empty);
    assert!(RangeHighlight::new(1, &r) == RangeHighlight::Empty);
}

fn span<'a>(r: &ColorRange<'a>) -> (usize, usize, bool, &'a str) {
    (r.start, r.end, r.is_bg, r.color_str)
}

#[test]
fn line_colours() {
    let mut l = LineRenderer::new(10, 0, 0, 80, 4);
    l.add_range_highlight(RangeHighlight::Range(2, 5), true, "sel");
    l.add_range_highlight(RangeHighlight::Before(0), false, "b");
    l.add_range_highlight(RangeHighlight::After(7), false, "a");
    l.add_range_highlight(RangeHighlight::WholeLine, false, "w");
    l.add_range_highlight(RangeHighlight::Empty, false, "none");
    let spans: Vec<_> = l.color_ranges.iter().map(span).collect();
    // An empty range (ending at 0) colours nothing.
    assert_eq!(spans, vec![(2, 4, true, "sel"), (7, 10, false, "a"), (0, 10, false, "w")]);
    assert_eq!(l.colors_opening_at(0), vec!["w"]);
    assert_eq!(l.colors_opening_at(2), vec!["sel"]);
    assert_eq!(l.colors_closing_at(4), vec![true]);
    assert_eq!(l.colors_closing_at(10), vec![false, false]);
    l.add_cursor(3, "fg", "bg");
    assert_eq!(l.color_ranges.len(), 5);
    assert!(!l.cursor_at_end);
    l.add_cursor(10, "fg", "bg");
    assert!(l.cursor_at_end);
    assert_eq!(l.color_ranges.len(), 5);
    assert_eq!(l.tab_width(5), 3);
    assert_eq!(l.tab_width(8), 4);
}

#[test]
fn colours_open_at_first_shown_character() {
    let mut l = LineRenderer::new(20, 6, 6, 80, 4);
    l.add_range_highlight(RangeHighlight::Range(2, 9), false, "x");
    l.add_range_highlight(RangeHighlight::Range(7, 9), false, "y");
    assert_eq!(l.colors_opening_at(6), vec!["x"]);
    assert_eq!(l.colors_opening_at(7), vec!["y"]);
}

#[test]
fn keybinding_hints_text() {
    assert_eq!(iedit::render::keybindings_text(), "│ ^q: quit │ ^s: save │ ^t: help");
}

fn show(pieces: &[Piece]) -> Vec<String> {
    pieces
        .iter()
        .map(|p| match p {
            Piece::Color(c) => format!("color {}", c),
            Piece::Char(ch) => ch.to_string(),
            Piece::Spaces(n) => format!("{} spaces", n),
            Piece::ResetFg => "reset fg".to_string(),
            Piece::ResetBg => "reset bg".to_string(),
            Piece::EmptyCursor => "end cursor".to_string(),
        })
        .collect()
}

#[test]
fn line_pieces_with_cursor_and_tab() {
    let chars: Vec<char> = "ab\tc".chars().collect();
    let mut lr = iedit::highlight::LineRenderer::new(chars.len(), 0, 0, 80, 4);
    lr.add_cursor(1, "F", "B");
    assert_eq!(
        show(&lr.render_pieces(&chars)),
        vec!["a", "color F", "color B", "b", "reset fg", "reset bg", "2 spaces", "c", "reset fg", "reset bg"]
    );
}

#[test]
fn line_pieces_scrolled_into_a_tab() {
    let chars: Vec<char> = "\tabc".chars().collect();
    let lr = iedit::highlight::LineRenderer::new(chars.len(), 0, 2, 3, 4);
    // Two columns of the tab show, then `a`; `b` lies past the three columns.
    assert_eq!(show(&lr.render_pieces(&chars)), vec!["2 spaces", "a", "reset fg", "reset bg"]);
}

#[test]
fn line_pieces_cursor_past_the_end() {
    let chars: Vec<char> = "x".chars().collect();
    let mut lr = iedit::highlight::LineRenderer::new(chars.len(), 0, 0, 80, 4);
    lr.add_cursor(1, "F", "B");
    lr.add_range_highlight(iedit::highlight::RangeHighlight::WholeLine, true, "S");
    assert_eq!(show(&lr.render_pieces(&chars)), vec!["color S", "color S", "x", "end cursor", "reset fg", "reset bg"]);
}

#[test]
fn a_popup_lasts_one_frame() {
    let mut e = editor(3, 80);
    e.displayed_popup = Some(iedit::editor::Popup::Help);
    e.status_bar.notification = "saved".chars().collect();
    e.needs_full_rerender = false;
    e.finish_frame();
    assert!(e.displayed_popup.is_none());
    assert!(e.needs_full_rerender);
    assert!(e.status_bar.notification.is_empty());
    e.finish_frame();
    assert!(!e.needs_full_rerender);
}

#[test]
fn empty_ranges_colour_nothing() {
    let mut l = LineRenderer::new(10, 0, 0, 80, 4);
    l.add_range_highlight(RangeHighlight::Range(3, 0), true, "r");
    l.add_range_highlight(RangeHighlight::Before(0), true, "b");
    assert!(l.color_ranges.is_empty());
    l.add_range_highlight(RangeHighlight::Before(1), true, "b");
    let spans: Vec<_> = l.color_ranges.iter().map(span).collect();
    assert_eq!(spans, vec![(0, 0, true, "b")]);
}
