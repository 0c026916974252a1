use iedit::keys::{Input, InputParser, Key};

fn chord(i: &Input) -> Option<[Key; 3]> {
    match i {
        Input::KeyChord(ks) => Some(*ks),
        _ => None,
    }
}

#[test]
fn chord_of_three_keys() {
    let mut p = InputParser::new();
    let i = p.next_key(Key::Ctrl('k'));
    assert_eq!(chord(&i), Some([Key::Ctrl('k'), Key::Null, Key::Null]));
    let i = p.next_key(Key::Char('x'));
    assert_eq!(chord(&i), Some([Key::Ctrl('k'), Key::Char('x'), Key::Null]));
    let i = p.next_key(Key::Char('p'));
    assert_eq!(chord(&i), Some([Key::Ctrl('k'), Key::Char('x'), Key::Char('p')]));
    assert_eq!(p.keychord_buf, [Key::Null; 3]);
    assert!(matches!(p.next_key(Key::Char('a')), Input::Keypress(Key::Char('a'))));
}

#[test]
fn plain_keys_pass_through() {
    let mut p = InputParser::new();
    for k in [Key::Char('q'), Key::Left, Key::Ctrl('s'), Key::Esc] {
        match p.next_key(k) {
            Input::Keypress(got) => assert_eq!(got, k),
            _ => panic!("expected a keypress"),
        }
    }
}

#[test]
fn ctrl_k_restarts_a_chord() {
    let mut p = InputParser::new();
    p.next_key(Key::Ctrl('k'));
    p.next_key(Key::Char('l'));
    let i = p.next_key(Key::Ctrl('k'));
    assert_eq!(chord(&i), Some([Key::Ctrl('k'), Key::Null, Key::Null]));
    p.next_key(Key::Char('s'));
    let i = p.next_key(Key::Char('l'));
    assert_eq!(chord(&i), Some([Key::Ctrl('k'), Key::Char('s'), Key::Char('l')]));
}
