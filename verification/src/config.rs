use vstd::prelude::*;

use crate::text::{
    chars_of, eq_str, find_char, first_index_of, is_ws, parse_unsigned, parse_unsigned_chars, trim, trim_end, trim_start, trimmed,
};

verus! {

/// The editor's settings, read from `~/.iedit.conf`.
pub struct EditorConfig {
    pub fullscreen: bool,
    pub min_lines: u16,
    pub horizontal_margin: u16,
    pub vertical_margin: u16,
    pub tab_size: u16,
    pub show_line_numbers: bool,
    pub show_keybindings: bool,
    pub confirm_quit_unsaved_changes: bool,
    pub tab_emit_spaces: bool,
    pub enable_syntax_highlighting: bool,
    pub use_system_clipboard: bool,
    pub syntax_highlighting_dir: Option<Vec<char>>,
}

/// The model of the settings.
pub struct ConfigView {
    pub fullscreen: bool,
    pub min_lines: u16,
    pub horizontal_margin: u16,
    pub vertical_margin: u16,
    pub tab_size: u16,
    pub show_line_numbers: bool,
    pub show_keybindings: bool,
    pub confirm_quit_unsaved_changes: bool,
    pub tab_emit_spaces: bool,
    pub enable_syntax_highlighting: bool,
    pub use_system_clipboard: bool,
    pub syntax_highlighting_dir: Option<Seq<char>>,
}

impl View for EditorConfig {
    type V = ConfigView;

    open spec fn view(&self) -> ConfigView {
        ConfigView {
            fullscreen: self.fullscreen,
            min_lines: self.min_lines,
            horizontal_margin: self.horizontal_margin,
            vertical_margin: self.vertical_margin,
            tab_size: self.tab_size,
            show_line_numbers: self.show_line_numbers,
            show_keybindings: self.show_keybindings,
            confirm_quit_unsaved_changes: self.confirm_quit_unsaved_changes,
            tab_emit_spaces: self.tab_emit_spaces,
            enable_syntax_highlighting: self.enable_syntax_highlighting,
            use_system_clipboard: self.use_system_clipboard,
            syntax_highlighting_dir: match self.syntax_highlighting_dir {
                Some(d) => Some(d@),
                None => None,
            },
        }
    }
}

/// The settings in force when the configuration file sets nothing.
pub open spec fn default_config() -> ConfigView {
    ConfigView {
        fullscreen: false,
        min_lines: 0,
        horizontal_margin: 4,
        vertical_margin: 4,
        tab_size: 4,
        show_line_numbers: true,
        show_keybindings: true,
        confirm_quit_unsaved_changes: true,
        tab_emit_spaces: true,
        enable_syntax_highlighting: true,
        use_system_clipboard: true,
        syntax_highlighting_dir: None,
    }
}

impl Default for EditorConfig {
    fn default() -> (c: Self)
        ensures
            c@ == default_config(),
    {
        EditorConfig {
            fullscreen: false,
            min_lines: 0,
            horizontal_margin: 4,
            tab_size: 4,
            vertical_margin: 4,
            show_line_numbers: true,
            show_keybindings: true,
            use_system_clipboard: true,
            confirm_quit_unsaved_changes: true,
            tab_emit_spaces: true,
            enable_syntax_highlighting: true,
            syntax_highlighting_dir: None,
        }
    }
}

/// `c` with its ASCII capitals made small.
pub open spec fn ascii_lower_char(c: char) -> char {
    if 'A' <= c && c <= 'Z' { ((c as u32) + 32) as char } else { c }
}

pub open spec fn ascii_lower(s: Seq<char>) -> Seq<char> {
    s.map_values(|c: char| ascii_lower_char(c))
}

/// How a setting's value reads as a flag: `true`, `1`, `yes` and `on` switch
/// it on, `false`, `0`, `no` and `off` switch it off, in any case of
/// letters; other values leave it as it was. (Full Unicode lowering, as
/// `str::to_lowercase` does, turns no other string into one of these words.)
pub open spec fn flag_value(value: Seq<char>) -> Option<bool> {
    let w = ascii_lower(value);
    if w == "true"@ || w == "1"@ || w == "yes"@ || w == "on"@ {
        Some(true)
    } else if w == "false"@ || w == "0"@ || w == "no"@ || w == "off"@ {
        Some(false)
    } else {
        None
    }
}

pub open spec fn flag_or(value: Seq<char>, current: bool) -> bool {
    match flag_value(value) {
        Some(b) => b,
        None => current,
    }
}

/// A number setting takes the value when it reads as a `u16`, else keeps its own.
pub open spec fn number_or(value: Seq<char>, current: u16) -> u16 {
    match parse_unsigned(value, u16::MAX as int) {
        Some(n) => n as u16,
        None => current,
    }
}

/// The setting named `key` set from `value`; unknown keys change nothing.
pub open spec fn apply_setting(c: ConfigView, key: Seq<char>, value: Seq<char>) -> ConfigView {
    if key == "fullscreen"@ {
        ConfigView { fullscreen: flag_or(value, c.fullscreen), ..c }
    } else if key == "min_lines"@ {
        ConfigView { min_lines: number_or(value, c.min_lines), ..c }
    } else if key == "horizontal_margin"@ {
        ConfigView { horizontal_margin: number_or(value, c.horizontal_margin), ..c }
    } else if key == "vertical_margin"@ {
        ConfigView { vertical_margin: number_or(value, c.vertical_margin), ..c }
    } else if key == "tab_size"@ {
        ConfigView { tab_size: number_or(value, c.tab_size), ..c }
    } else if key == "show_line_numbers"@ {
        ConfigView { show_line_numbers: flag_or(value, c.show_line_numbers), ..c }
    } else if key == "show_keybindings"@ {
        ConfigView { show_keybindings: flag_or(value, c.show_keybindings), ..c }
    } else if key == "confirm_quit_unsaved_changes"@ {
        ConfigView { confirm_quit_unsaved_changes: flag_or(value, c.confirm_quit_unsaved_changes), ..c }
    } else if key == "tab_emit_spaces"@ {
        ConfigView { tab_emit_spaces: flag_or(value, c.tab_emit_spaces), ..c }
    } else if key == "enable_syntax_highlighting"@ {
        ConfigView { enable_syntax_highlighting: flag_or(value, c.enable_syntax_highlighting), ..c }
    } else if key == "use_system_clipboard"@ {
        ConfigView { use_system_clipboard: flag_or(value, c.use_system_clipboard), ..c }
    } else if key == "syntax_highlighting_dir"@ {
        ConfigView { syntax_highlighting_dir: Some(value), ..c }
    } else {
        c
    }
}

/// One line of the file: blank lines and lines starting with `#` (after
/// trimming) are skipped; otherwise the text before the first `=` is the key
/// and the text after it the value, both trimmed; a line without `=` is
/// skipped.
pub open spec fn apply_line(c: ConfigView, line: Seq<char>) -> ConfigView {
    let t = trim(line);
    if t.len() == 0 || t[0] == '#' {
        c
    } else {
        match first_index_of(t, '=') {
            Some(i) => apply_setting(c, trim(t.subrange(0, i)), trim(t.subrange(i + 1, t.len() as int))),
            None => c,
        }
    }
}

/// The lines of `s`, split at each `\n`.
pub open spec fn lines_of(s: Seq<char>) -> Seq<Seq<char>>
    decreases s.len(),
{
    if s.len() == 0 {
        seq![Seq::<char>::empty()]
    } else {
        let prev = lines_of(s.drop_last());
        if s.last() == '\n' {
            prev.push(Seq::<char>::empty())
        } else {
            prev.update(prev.len() - 1, prev.last().push(s.last()))
        }
    }
}

/// The settings after reading `lines` in order, starting from the defaults.
pub open spec fn config_after(lines: Seq<Seq<char>>) -> ConfigView
    decreases lines.len(),
{
    if lines.len() == 0 { default_config() } else { apply_line(config_after(lines.drop_last()), lines.last()) }
}

/// The settings a configuration text of `key = value` lines gives. Line
/// ends are `\n`; a `\r` before it is whitespace and trimmed away.
pub open spec fn parse_config(contents: Seq<char>) -> ConfigView {
    config_after(lines_of(contents))
}

proof fn lemma_lines_nonempty(s: Seq<char>)
    ensures
        lines_of(s).len() >= 1,
    decreases s.len(),
{
    if s.len() > 0 {
        lemma_lines_nonempty(s.drop_last());
    }
}

proof fn lemma_first_index_unique(s: Seq<char>, c: char, i: int)
    requires
        0 <= i < s.len(),
        s[i] == c,
        forall|j: int| 0 <= j < i ==> s[j] != c,
    ensures
        first_index_of(s, c) == Some(i),
{
    let k = choose|k: int| 0 <= k < s.len() && s[k] == c && forall|j: int| 0 <= j < k ==> s[j] != c;
    assert(0 <= k < s.len() && s[k] == c && forall|j: int| 0 <= j < k ==> s[j] != c);
    if k < i {
        assert(s[k] != c);
    } else if i < k {
        assert(s[i] != c);
    }
}

/// How `value` reads as a flag.
fn parse_flag(value: &Vec<char>) -> (r: Option<bool>)
    ensures
        r == flag_value(value@),
{
    let mut w: Vec<char> = Vec::new();
    let mut i: usize = 0;
    while i < value.len()
        invariant
            i <= value@.len(),
            w@ == ascii_lower(value@.take(i as int)),
        decreases value@.len() - i,
    {
        let c = value[i];
        let lower = if 'A' <= c && c <= 'Z' { ((c as u8) + 32) as char } else { c };
        w.push(lower);
        assert(ascii_lower(value@.take(i + 1)) == ascii_lower(value@.take(i as int)).push(ascii_lower_char(c)));
        i += 1;
    }
    assert(value@.take(value@.len() as int) == value@);
    if eq_str(&w, "true") || eq_str(&w, "1") || eq_str(&w, "yes") || eq_str(&w, "on") {
        Some(true)
    } else if eq_str(&w, "false") || eq_str(&w, "0") || eq_str(&w, "no") || eq_str(&w, "off") {
        Some(false)
    } else {
        None
    }
}

fn parse_number(value: &Vec<char>, current: u16) -> (n: u16)
    ensures
        n == number_or(value@, current),
{
    match parse_unsigned_chars(value.as_slice(), 0xffff) {
        Some(n) => n as u16,
        None => current,
    }
}

fn flag_from(value: &Vec<char>, current: bool) -> (b: bool)
    ensures
        b == flag_or(value@, current),
{
    match parse_flag(value) {
        Some(b) => b,
        None => current,
    }
}

impl EditorConfig {
    /// Sets the setting named `key` from `value`.
    fn apply_setting(&mut self, key: &Vec<char>, value: Vec<char>)
        ensures
            final(self)@ == apply_setting(old(self)@, key@, value@),
    {
        if eq_str(key, "fullscreen") {
            self.fullscreen = flag_from(&value, self.fullscreen);
        } else if eq_str(key, "min_lines") {
            self.min_lines = parse_number(&value, self.min_lines);
        } else if eq_str(key, "horizontal_margin") {
            self.horizontal_margin = parse_number(&value, self.horizontal_margin);
        } else if eq_str(key, "vertical_margin") {
            self.vertical_margin = parse_number(&value, self.vertical_margin);
        } else if eq_str(key, "tab_size") {
            self.tab_size = parse_number(&value, self.tab_size);
        } else if eq_str(key, "show_line_numbers") {
            self.show_line_numbers = flag_from(&value, self.show_line_numbers);
        } else if eq_str(key, "show_keybindings") {
            self.show_keybindings = flag_from(&value, self.show_keybindings);
        } else if eq_str(key, "confirm_quit_unsaved_changes") {
            self.confirm_quit_unsaved_changes = flag_from(&value, self.confirm_quit_unsaved_changes);
        } else if eq_str(key, "tab_emit_spaces") {
            self.tab_emit_spaces = flag_from(&value, self.tab_emit_spaces);
        } else if eq_str(key, "enable_syntax_highlighting") {
            self.enable_syntax_highlighting = flag_from(&value, self.enable_syntax_highlighting);
        } else if eq_str(key, "use_system_clipboard") {
            self.use_system_clipboard = flag_from(&value, self.use_system_clipboard);
        } else if eq_str(key, "syntax_highlighting_dir") {
            self.syntax_highlighting_dir = Some(value);
        }
    }

    /// Applies one line of a configuration text.
    fn apply_line(&mut self, line: &Vec<char>)
        ensures
            final(self)@ == apply_line(old(self)@, line@),
    {
        let t = trimmed(line.as_slice());
        if t.len() == 0 || t[0] == '#' {
            return;
        }
        match find_char(t.as_slice(), '=') {
            Some(i) => {
                proof {
                    lemma_first_index_unique(t@, '=', i as int);
                }
                let key = trimmed(vstd::slice::slice_subrange(t.as_slice(), 0, i));
                let value = trimmed(vstd::slice::slice_subrange(t.as_slice(), i + 1, t.len()));
                self.apply_setting(&key, value);
            },
            None => {
                assert(first_index_of(t@, '=') is None);
            },
        }
    }

    /// Reads settings from `key = value` lines, starting from the defaults;
    /// unknown keys, malformed lines and values that do not parse are
    /// ignored.
    pub fn parse(contents: &str) -> (c: Self)
        ensures
            c@ == parse_config(contents@),
    {
        let text = chars_of(contents);
        let mut config = EditorConfig::default();
        let mut line: Vec<char> = Vec::new();
        let mut i: usize = 0;
        assert(text@.take(0) == Seq::<char>::empty());
        assert(lines_of(text@.take(0)).drop_last() == Seq::<Seq<char>>::empty());
        while i < text.len()
            invariant
                i <= text@.len(),
                config@ == config_after(lines_of(text@.take(i as int)).drop_last()),
                line@ == lines_of(text@.take(i as int)).last(),
            decreases text@.len() - i,
        {
            let ghost prev = lines_of(text@.take(i as int));
            proof {
                lemma_lines_nonempty(text@.take(i as int));
                assert(text@.take(i + 1).drop_last() == text@.take(i as int));
                assert(text@.take(i + 1).last() == text@[i as int]);
            }
            if text[i] == '\n' {
                proof {
                    assert(prev.push(Seq::<char>::empty()).drop_last() == prev);
                    assert(prev == prev.drop_last().push(prev.last()));
                }
                config.apply_line(&line);
                line = Vec::new();
            } else {
                line.push(text[i]);
                proof {
                    assert(prev.update(prev.len() - 1, prev.last().push(text@[i as int])).drop_last() == prev.drop_last());
                }
            }
            i += 1;
        }
        proof {
            assert(text@.take(i as int) == text@);
            lemma_lines_nonempty(text@);
            let ls = lines_of(text@);
            assert(ls == ls.drop_last().push(ls.last()));
        }
        config.apply_line(&line);
        config
    }
}

/// Settings are only ever set by `key = value` lines: a text in which no
/// line holds a `=` (after trimming) leaves every setting at its default.
pub proof fn lemma_defaults_without_settings(lines: Seq<Seq<char>>)
    requires
        forall|k: int| 0 <= k < lines.len() ==> first_index_of(trim(#[trigger] lines[k]), '=') is None,
    ensures
        config_after(lines) == default_config(),
    decreases lines.len(),
{
    if lines.len() > 0 {
        let prefix = lines.drop_last();
        assert forall|k: int| 0 <= k < prefix.len() implies first_index_of(trim(#[trigger] prefix[k]), '=') is None by {
            assert(prefix[k] == lines[k]);
        }
        lemma_defaults_without_settings(prefix);
        assert(first_index_of(trim(lines[lines.len() - 1]), '=') is None);
    }
}

/// Blank lines and `#` comments never change a setting.
pub proof fn lemma_comments_ignored(c: ConfigView, line: Seq<char>)
    requires
        trim(line).len() == 0 || trim(line)[0] == '#',
    ensures
        apply_line(c, line) == c,
{
}

/// A key that names no setting changes nothing.
pub proof fn lemma_unknown_key_ignored(c: ConfigView, key: Seq<char>, value: Seq<char>)
    requires
        key != "fullscreen"@,
        key != "min_lines"@,
        key != "horizontal_margin"@,
        key != "vertical_margin"@,
        key != "tab_size"@,
        key != "show_line_numbers"@,
        key != "show_keybindings"@,
        key != "confirm_quit_unsaved_changes"@,
        key != "tab_emit_spaces"@,
        key != "enable_syntax_highlighting"@,
        key != "use_system_clipboard"@,
        key != "syntax_highlighting_dir"@,
    ensures
        apply_setting(c, key, value) == c,
{
}

/// The pattern that picks out a setting's name at the start of a line of
/// the configuration file: every setting's name, as alternatives.
pub open spec fn keys_pattern() -> Seq<char> {
    "^(fullscreen|min_lines|horizontal_margin|vertical_margin|tab_size|show_line_numbers|show_keybindings|confirm_quit_unsaved_changes|tab_emit_spaces|enable_syntax_highlighting|use_system_clipboard|syntax_highlighting_dir)"@
}

pub fn config_keys_pattern() -> (p: Vec<char>)
    ensures
        p@ == keys_pattern(),
{
    chars_of("^(fullscreen|min_lines|horizontal_margin|vertical_margin|tab_size|show_line_numbers|show_keybindings|confirm_quit_unsaved_changes|tab_emit_spaces|enable_syntax_highlighting|use_system_clipboard|syntax_highlighting_dir)")
}

/// The compiled pattern that highlights settings' names in the
/// configuration file.
pub fn config_keys_regex() -> (r: Option<crate::search::PatternRegex>)
    ensures
        r is Some <==> crate::search::regex_accepts(keys_pattern()),
        r matches Some(x) ==> x@ == keys_pattern(),
{
    let p = config_keys_pattern();
    crate::search::compile_regex(&p)
}

/// Whether `value` is taken for the setting named `key`: a number setting
/// takes numbers that fit in a `u16`, a flag setting the flag words, the
/// syntax directory anything.
pub open spec fn value_taken(key: Seq<char>, value: Seq<char>) -> bool {
    if key == "min_lines"@ || key == "horizontal_margin"@ || key == "vertical_margin"@ || key == "tab_size"@ {
        parse_unsigned(value, u16::MAX as int) is Some
    } else if key == "syntax_highlighting_dir"@ {
        true
    } else {
        flag_value(value) is Some
    }
}

/// A later line setting a key overrides an earlier one, when its value is
/// taken.
pub proof fn lemma_later_setting_wins(c: ConfigView, key: Seq<char>, first: Seq<char>, second: Seq<char>)
    requires
        value_taken(key, second),
    ensures
        apply_setting(apply_setting(c, key, first), key, second) == apply_setting(c, key, second),
{
    // The names of the settings are told apart by their lengths, and two
    // of the same length by their first letters.
    reveal_strlit("fullscreen");
    reveal_strlit("min_lines");
    reveal_strlit("horizontal_margin");
    reveal_strlit("vertical_margin");
    reveal_strlit("tab_size");
    reveal_strlit("show_line_numbers");
    reveal_strlit("show_keybindings");
    reveal_strlit("confirm_quit_unsaved_changes");
    reveal_strlit("tab_emit_spaces");
    reveal_strlit("enable_syntax_highlighting");
    reveal_strlit("use_system_clipboard");
    reveal_strlit("syntax_highlighting_dir");
    assert("fullscreen"@.len() == 10);
    assert("min_lines"@.len() == 9);
    assert("horizontal_margin"@.len() == 17);
    assert("vertical_margin"@.len() == 15);
    assert("tab_size"@.len() == 8);
    assert("show_line_numbers"@.len() == 17);
    assert("show_keybindings"@.len() == 16);
    assert("confirm_quit_unsaved_changes"@.len() == 28);
    assert("tab_emit_spaces"@.len() == 15);
    assert("enable_syntax_highlighting"@.len() == 26);
    assert("use_system_clipboard"@.len() == 20);
    assert("syntax_highlighting_dir"@.len() == 23);
    assert("horizontal_margin"@[0] != "show_line_numbers"@[0]);
    assert("vertical_margin"@[0] != "tab_emit_spaces"@[0]);
}

/// A setting line sets the setting it names and no other: each name sets
/// its own field from the value (a flag from a flag word, a number from a
/// number that fits, the syntax directory from any value) and leaves every
/// other field as it was.
pub proof fn lemma_setting_sets_its_field(c: ConfigView, value: Seq<char>)
    ensures
        apply_setting(c, "fullscreen"@, value) == (ConfigView { fullscreen: flag_or(value, c.fullscreen), ..c }),
        apply_setting(c, "min_lines"@, value) == (ConfigView { min_lines: number_or(value, c.min_lines), ..c }),
        apply_setting(c, "horizontal_margin"@, value) == (ConfigView { horizontal_margin: number_or(value, c.horizontal_margin), ..c }),
        apply_setting(c, "vertical_margin"@, value) == (ConfigView { vertical_margin: number_or(value, c.vertical_margin), ..c }),
        apply_setting(c, "tab_size"@, value) == (ConfigView { tab_size: number_or(value, c.tab_size), ..c }),
        apply_setting(c, "show_line_numbers"@, value) == (ConfigView { show_line_numbers: flag_or(value, c.show_line_numbers), ..c }),
        apply_setting(c, "show_keybindings"@, value) == (ConfigView { show_keybindings: flag_or(value, c.show_keybindings), ..c }),
        apply_setting(c, "confirm_quit_unsaved_changes"@, value) == (ConfigView { confirm_quit_unsaved_changes: flag_or(value, c.confirm_quit_unsaved_changes), ..c }),
        apply_setting(c, "tab_emit_spaces"@, value) == (ConfigView { tab_emit_spaces: flag_or(value, c.tab_emit_spaces), ..c }),
        apply_setting(c, "enable_syntax_highlighting"@, value) == (ConfigView { enable_syntax_highlighting: flag_or(value, c.enable_syntax_highlighting), ..c }),
        apply_setting(c, "use_system_clipboard"@, value) == (ConfigView { use_system_clipboard: flag_or(value, c.use_system_clipboard), ..c }),
        apply_setting(c, "syntax_highlighting_dir"@, value) == (ConfigView { syntax_highlighting_dir: Some(value), ..c }),
{
    reveal_strlit("fullscreen");
    reveal_strlit("min_lines");
    reveal_strlit("horizontal_margin");
    reveal_strlit("vertical_margin");
    reveal_strlit("tab_size");
    reveal_strlit("show_line_numbers");
    reveal_strlit("show_keybindings");
    reveal_strlit("confirm_quit_unsaved_changes");
    reveal_strlit("tab_emit_spaces");
    reveal_strlit("enable_syntax_highlighting");
    reveal_strlit("use_system_clipboard");
    reveal_strlit("syntax_highlighting_dir");
    assert("fullscreen"@.len() == 10);
    assert("min_lines"@.len() == 9);
    assert("horizontal_margin"@.len() == 17);
    assert("vertical_margin"@.len() == 15);
    assert("tab_size"@.len() == 8);
    assert("show_line_numbers"@.len() == 17);
    assert("show_keybindings"@.len() == 16);
    assert("confirm_quit_unsaved_changes"@.len() == 28);
    assert("tab_emit_spaces"@.len() == 15);
    assert("enable_syntax_highlighting"@.len() == 26);
    assert("use_system_clipboard"@.len() == 20);
    assert("syntax_highlighting_dir"@.len() == 23);
    assert("horizontal_margin"@[0] != "show_line_numbers"@[0]);
    assert("vertical_margin"@[0] != "tab_emit_spaces"@[0]);
}

/// A flag word switches the flag it names: `true`, `yes`, `on` or `1` turn
/// it on and `false`, `no`, `off` or `0` turn it off.
pub proof fn lemma_flag_words(current: bool)
    ensures
        flag_or("true"@, current) && flag_or("yes"@, current) && flag_or("on"@, current) && flag_or("1"@, current),
        !flag_or("false"@, current) && !flag_or("no"@, current) && !flag_or("off"@, current) && !flag_or("0"@, current),
{
    reveal_strlit("true");
    reveal_strlit("yes");
    reveal_strlit("on");
    reveal_strlit("1");
    reveal_strlit("false");
    reveal_strlit("no");
    reveal_strlit("off");
    reveal_strlit("0");
    assert(ascii_lower("true"@) =~= "true"@);
    assert(ascii_lower("yes"@) =~= "yes"@);
    assert(ascii_lower("on"@) =~= "on"@);
    assert(ascii_lower("1"@) =~= "1"@);
    assert(ascii_lower("false"@) =~= "false"@);
    assert(ascii_lower("no"@) =~= "no"@);
    assert(ascii_lower("off"@) =~= "off"@);
    assert(ascii_lower("0"@) =~= "0"@);
    assert("true"@.len() == 4 && "yes"@.len() == 3 && "on"@.len() == 2 && "1"@.len() == 1);
    assert("false"@.len() == 5 && "no"@.len() == 2 && "off"@.len() == 3 && "0"@.len() == 1);
    assert("no"@[0] != "on"@[0]);
    assert("off"@[0] != "yes"@[0]);
    assert("0"@[0] != "1"@[0]);
}

/// Text with no line end is one line.
proof fn lemma_one_line(s: Seq<char>)
    requires
        forall|i: int| 0 <= i < s.len() ==> s[i] != '\n',
    ensures
        lines_of(s) == seq![s],
    decreases s.len(),
{
    if s.len() == 0 {
        assert(s =~= Seq::<char>::empty());
    } else {
        let p = s.drop_last();
        assert forall|i: int| 0 <= i < p.len() implies p[i] != '\n' by {
            assert(p[i] == s[i]);
        }
        lemma_one_line(p);
        assert(p.push(s.last()) =~= s);
        let prev = lines_of(p);
        assert(prev.len() == 1);
        assert(prev.last() == p);
        assert(prev.update(prev.len() - 1, prev.last().push(s.last())) =~= seq![s]);
    }
}

/// A word with no whitespace at its ends and no line end, as a key or a
/// value.
pub open spec fn bare_word(w: Seq<char>) -> bool {
    w.len() > 0 && !is_ws(w[0]) && !is_ws(w.last()) && forall|i: int| 0 <= i < w.len() ==> w[i] != '\n'
}

proof fn lemma_bare_trimmed(w: Seq<char>)
    requires
        bare_word(w),
    ensures
        trim(w) == w,
        trim(w.push(' ')) == w,
        trim(seq![' '] + w) == w,
{
    assert(trim_start(w) == w);
    assert(trim_end(w) == w);
    let a = w.push(' ');
    assert(a[0] == w[0]);
    assert(trim_start(a) == a);
    assert(a.drop_last() =~= w);
    assert(trim_end(a) == w);
    let b = seq![' '] + w;
    assert(b.drop_first() =~= w);
    assert(trim_start(b) == w);
}

proof fn lemma_setting_line_parts(key: Seq<char>, value: Seq<char>)
    requires
        bare_word(key),
        bare_word(value),
        forall|i: int| 0 <= i < key.len() ==> key[i] != '=',
    ensures
        ({
            let line = key + " = "@ + value;
            &&& trim(line) == line
            &&& first_index_of(line, '=') == Some(key.len() as int + 1)
            &&& line.subrange(0, key.len() as int + 1) == key.push(' ')
            &&& line.subrange(key.len() as int + 2, line.len() as int) == seq![' '] + value
            &&& forall|i: int| 0 <= i < line.len() ==> line[i] != '\n'
        }),
{
    reveal_strlit(" = ");
    let line = key + " = "@ + value;
    let n = key.len() as int;
    assert(line.len() == n + 3 + value.len());
    assert forall|i: int| 0 <= i < line.len() implies line[i] != '\n' by {
        if i < n {
            assert(line[i] == key[i]);
        } else if i >= n + 3 {
            assert(line[i] == value[i - n - 3]);
        }
    }
    assert(line[0] == key[0]);
    assert(trim_start(line) == line);
    assert(line.last() == value.last());
    assert(trim_end(line) == line);
    assert(line[n + 1] == '=');
    assert forall|j: int| 0 <= j < n + 1 implies line[j] != '=' by {
        if j < n {
            assert(line[j] == key[j]);
        }
    }
    lemma_first_index_unique(line, '=', n + 1);
    assert(line.subrange(0, n + 1) =~= key.push(' '));
    assert(line.subrange(n + 2, line.len() as int) =~= seq![' '] + value);
}

/// A configuration text of the one line `key = value` sets exactly what
/// that key sets from that value, starting from the defaults.
pub proof fn lemma_single_setting_line(key: Seq<char>, value: Seq<char>)
    requires
        bare_word(key),
        bare_word(value),
        forall|i: int| 0 <= i < key.len() ==> key[i] != '=',
        key[0] != '#',
    ensures
        parse_config(key + " = "@ + value) == apply_setting(default_config(), key, value),
{
    let line = key + " = "@ + value;
    lemma_setting_line_parts(key, value);
    lemma_bare_trimmed(key);
    lemma_bare_trimmed(value);
    lemma_one_line(line);
    let ls = seq![line];
    assert(ls.drop_last() =~= Seq::<Seq<char>>::empty());
    assert(config_after(Seq::<Seq<char>>::empty()) == default_config());
    assert(ls.last() == line);
    assert(config_after(ls) == apply_line(default_config(), line));
}

/// A number setting takes the number written in its value when it fits in
/// a `u16`.
pub proof fn lemma_number_values(n: nat, current: u16)
    requires
        n <= u16::MAX,
    ensures
        number_or(crate::text::decimal_string(n), current) == n,
{
    crate::text::lemma_decimal_round_trip(n);
    let d = crate::text::decimal_string(n);
    assert(d[0] != '+') by {
        assert(crate::text::is_digit(d[0]));
    }
    assert(crate::text::unsigned_digits(d) == d);
}

} // verus!
