use iedit::config::EditorConfig;
use iedit::document::Document;
use iedit::editor::Editor;
use iedit::modes::EditorMode;
use iedit::save::{first_modified_line, line_offsets_from, offsets_after_save, save_plan, save_text, FileCut, SaveStart};
use iedit::status::SubmitAction;
use iedit::terminal::UILayout;

#[test]
fn first_modified_line_finds_first_change() {
    assert_eq!(first_modified_line(&vec![false, false, true, false, true]), 2);
    assert_eq!(first_modified_line(&vec![true]), 0);
}

#[test]
fn first_modified_line_is_line_count_when_unchanged() {
    assert_eq!(first_modified_line(&vec![false, false, false]), 3);
    assert_eq!(first_modified_line(&vec![]), 0);
}

#[test]
fn offsets_of_whole_file() {
    // "ab\ncde\n\nf": lines of 2, 3, 0, 1 bytes.
    let (offsets, written) = line_offsets_from(&vec![2, 3, 0, 1], 0, 0);
    assert_eq!(offsets, vec![0, 3, 7, 8]);
    assert_eq!(written, 9);
}

#[test]
fn offsets_from_a_later_line() {
    let (offsets, written) = line_offsets_from(&vec![2, 3, 0, 1], 2, 7);
    assert_eq!(offsets, vec![7, 8]);
    assert_eq!(written, 2);
}

#[test]
fn offsets_when_nothing_is_left() {
    let (offsets, written) = line_offsets_from(&vec![4, 4], 2, 10);
    assert!(offsets.is_empty());
    assert_eq!(written, 0);
}

#[test]
fn save_plan_cuts_at_the_first_changed_line() {
    let (first, cut) = save_plan(true, &vec![false, true, false], &vec![0, 4, 9]);
    assert_eq!(first, 1);
    assert!(cut == FileCut::Truncate(4));
}

#[test]
fn save_plan_with_nothing_changed_writes_nothing() {
    let (first, cut) = save_plan(true, &vec![false, false], &vec![0, 4]);
    assert_eq!(first, 2);
    assert!(cut == FileCut::AtEnd);
    assert!(line_offsets_from(&vec![3, 2], first, 6).0.is_empty());
    assert!(save_text(&vec![vec!['a'], vec!['b']], first).is_empty());
    let (first, cut) = save_plan(true, &vec![], &vec![]);
    assert_eq!(first, 0);
    assert!(cut == FileCut::AtEnd);
}

#[test]
fn save_plan_rewrites_a_file_changed_elsewhere() {
    let (first, cut) = save_plan(false, &vec![false, true], &vec![0, 4]);
    assert_eq!(first, 0);
    assert!(cut == FileCut::Clear);
}

#[test]
fn offsets_after_save_keep_the_lines_before() {
    assert_eq!(offsets_after_save(&vec![0, 4, 9], 1, &vec![4, 7]), vec![0, 4, 7]);
    assert_eq!(offsets_after_save(&vec![0, 4], 5, &vec![]), vec![0, 4]);
}

fn editor() -> Editor {
    let doc = Document { lines: vec![vec!['x']], modified: true };
    let ui = UILayout { ui_origin: (1, 1), term_width: 80, term_height: 24, editor_lines: 20 };
    Editor::new(doc, 0, EditorConfig::default(), ui)
}

#[test]
fn save_start_cases() {
    let mut e = editor();
    assert!(matches!(e.save_start(true, false), SaveStart::Write { create_file: false }));
    assert!(matches!(e.save_start(false, false), SaveStart::Write { create_file: true }));
    assert!(matches!(e.save_start(false, true), SaveStart::AskForName));
    assert!(matches!(e.mode, EditorMode::Prompt("File name: ")));
    assert!(e.status_bar.submit_action == Some(SubmitAction::SetFile));
    let mut e = editor();
    e.is_viewing_execution_output = true;
    match e.save_start(true, false) {
        SaveStart::Refuse(m) => assert_eq!(m.iter().collect::<String>(), "Currently viewing execution output, won't save"),
        _ => panic!("expected a refusal"),
    }
}

#[test]
fn save_plan_puts_a_new_line_after_a_line_end() {
    let (first, cut) = save_plan(true, &vec![false, false, true], &vec![0, 4]);
    assert_eq!(first, 2);
    assert!(cut == FileCut::AppendLineEnd);
}

fn lines(ls: &[&str]) -> Vec<Vec<char>> {
    ls.iter().map(|l| l.chars().collect()).collect()
}

#[test]
fn save_text_joins_lines_with_line_ends() {
    let t: String = save_text(&lines(&["ab", "", "c"]), 0).into_iter().collect();
    assert_eq!(t, "ab\n\nc");
    let t: String = save_text(&lines(&["ab", "", "c"]), 1).into_iter().collect();
    assert_eq!(t, "\nc");
}

#[test]
fn kept_and_written_offsets_make_the_whole_layout() {
    let byte_lens = vec![2, 3, 0, 1];
    let (whole, _) = line_offsets_from(&byte_lens, 0, 0);
    let (kept, kept_len) = line_offsets_from(&vec![2, 3, 0, 1], 0, 0);
    let (written, _) = line_offsets_from(&byte_lens, 2, whole[2]);
    assert_eq!(kept_len, 9);
    assert_eq!(offsets_after_save(&kept, 2, &written), whole);
}
