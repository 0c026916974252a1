use iedit::config::{config_keys_pattern, config_keys_regex, EditorConfig};
use iedit::editor_config;

fn chars(s: &str) -> Vec<char> {
    s.chars().collect()
}

#[test]
fn empty_text_gives_defaults() {
    let c = EditorConfig::parse("");
    assert!(!c.fullscreen);
    assert_eq!(c.min_lines, 0);
    assert_eq!(c.horizontal_margin, 4);
    assert_eq!(c.vertical_margin, 4);
    assert_eq!(c.tab_size, 4);
    assert!(c.show_line_numbers);
    assert!(c.show_keybindings);
    assert!(c.confirm_quit_unsaved_changes);
    assert!(c.tab_emit_spaces);
    assert!(c.enable_syntax_highlighting);
    assert!(c.use_system_clipboard);
    assert!(c.syntax_highlighting_dir.is_none());
}

#[test]
fn settings_are_read_line_by_line() {
    let text = "tab_size = 8\nshow_line_numbers=off\n# tab_size = 2\nunknown = 3\nmin_lines=+12\nvertical_margin = 70000\nfullscreen = YES\r\nsyntax_highlighting_dir = /tmp/syn\n";
    let c = EditorConfig::parse(text);
    assert_eq!(c.tab_size, 8);
    assert!(!c.show_line_numbers);
    assert_eq!(c.min_lines, 12);
    assert_eq!(c.vertical_margin, 4);
    assert!(c.fullscreen);
    assert_eq!(c.syntax_highlighting_dir, Some(chars("/tmp/syn")));
}

#[test]
fn flag_words() {
    for (word, expected) in [("true", true), ("1", true), ("Yes", true), ("ON", true), ("false", false), ("0", false), ("nO", false), ("Off", false)] {
        let c = EditorConfig::parse(&format!("use_system_clipboard = {}", word));
        assert_eq!(c.use_system_clipboard, expected, "{}", word);
        let c = EditorConfig::parse(&format!("fullscreen = {}", word));
        assert_eq!(c.fullscreen, expected, "{}", word);
    }
    let c = EditorConfig::parse("show_keybindings = maybe");
    assert!(c.show_keybindings);
}

#[test]
fn numbers_that_do_not_parse_are_ignored() {
    for bad in ["-3", "", "+", "4.5", "65536", "12a", " 1 2"] {
        let c = EditorConfig::parse(&format!("tab_size = {}", bad));
        assert_eq!(c.tab_size, 4, "{:?}", bad);
    }
    let c = EditorConfig::parse("tab_size = 65535");
    assert_eq!(c.tab_size, 65535);
    let c = EditorConfig::parse("tab_size = 007");
    assert_eq!(c.tab_size, 7);
}

#[test]
fn lines_without_equals_and_later_lines() {
    let c = EditorConfig::parse("horizontal_margin 7\nhorizontal_margin = 2\nhorizontal_margin = 3");
    assert_eq!(c.horizontal_margin, 3);
    let c = EditorConfig::parse("  syntax_highlighting_dir =  a=b  ");
    assert_eq!(c.syntax_highlighting_dir, Some(chars("a=b")));
    let c = EditorConfig::parse("\t tab_emit_spaces\u{a0}= no\u{3000}");
    assert!(!c.tab_emit_spaces);
}

#[test]
fn keys_pattern_names_every_setting() {
    let p: String = config_keys_pattern().into_iter().collect();
    assert!(p.starts_with("^(fullscreen|min_lines|"));
    assert!(p.ends_with("|syntax_highlighting_dir)"));
    let re = config_keys_regex().expect("the pattern compiles");
    assert_eq!(re.pattern().iter().collect::<String>(), p);
    assert!(re.regex().is_match("tab_size = 4"));
    assert!(!re.regex().is_match("# tab_size = 4"));
}

#[test]
fn second_settings_defaults() {
    let c: editor_config::EditorConfig = Default::default();
    assert_eq!(c.n_lines, 0);
    assert_eq!(c.horizontal_margin, 4);
    assert_eq!(c.vertical_margin, 4);
    assert_eq!(c.tab_size, 4);
    assert!(c.show_line_numbers);
    assert!(c.show_keybindings);
    assert!(c.confirm_quit_unsaved_changes);
    assert_eq!(c.edit_debounce_time_secs, 1);
}

#[test]
fn later_settings_override_earlier_ones() {
    let c = EditorConfig::parse("tab_size = 2\ntab_size = 8\nshow_keybindings = off\nshow_keybindings = yes");
    assert_eq!(c.tab_size, 8);
    assert!(c.show_keybindings);
    // A value that is not taken leaves the earlier one in force.
    let c = EditorConfig::parse("tab_size = 2\ntab_size = eight");
    assert_eq!(c.tab_size, 2);
}
