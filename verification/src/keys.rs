use vstd::prelude::*;

verus! {

/// A key as the terminal reports it.
#[derive(Clone, Copy, Debug, PartialEq, Eq, Structural)]
pub enum Key {
    Backspace,
    Left,
    ShiftLeft,
    AltLeft,
    CtrlLeft,
    CtrlShiftLeft,
    Right,
    ShiftRight,
    AltRight,
    CtrlRight,
    CtrlShiftRight,
    Up,
    ShiftUp,
    AltUp,
    CtrlUp,
    CtrlShiftUp,
    Down,
    ShiftDown,
    AltDown,
    CtrlDown,
    CtrlShiftDown,
    Home,
    CtrlHome,
    End,
    CtrlEnd,
    PageUp,
    PageDown,
    BackTab,
    Delete,
    Insert,
    F(u8),
    Char(char),
    Alt(char),
    Ctrl(char),
    Null,
    Esc,
}

/// A message that arrives from outside the key stream.
pub enum Notification {
    Simple(Vec<char>),
    ExecutionEnd { status: Vec<char>, output_available: bool },
}

/// What the input stream hands to the editor.
pub enum Input {
    NoOp,
    Keypress(Key),
    KeyChord([Key; 3]),
    ExternalNotification(Notification),
}

/// Turns a key stream into inputs: `Ctrl-k` starts a chord of three keys,
/// which is handed on as it grows (with `Null` for the keys still to come,
/// so that hints can be shown); the third key completes it; any other key
/// stands alone.
pub struct InputParser {
    pub keychord_buf: [Key; 3],
}

/// The chord buffer: empty, holding the opening `Ctrl-k`, or holding it and
/// the second key.
pub open spec fn chord_buffer_wf(b: Seq<Key>) -> bool {
    &&& b.len() == 3
    &&& b[2] == Key::Null
    &&& (b[0] == Key::Null || b[0] == Key::Ctrl('k'))
    &&& (b[1] != Key::Null ==> b[0] == Key::Ctrl('k'))
}

pub open spec fn empty_chord() -> Seq<Key> {
    seq![Key::Null, Key::Null, Key::Null]
}

/// The buffer after `key` arrives in buffer `b`, and the chord handed on,
/// if any (when there is none, the key is handed on by itself).
pub open spec fn chord_step(b: Seq<Key>, key: Key) -> (Seq<Key>, Option<Seq<Key>>) {
    if key == Key::Ctrl('k') {
        (seq![Key::Ctrl('k'), Key::Null, Key::Null], Some(seq![Key::Ctrl('k'), Key::Null, Key::Null]))
    } else if b[1] != Key::Null {
        (empty_chord(), Some(seq![b[0], b[1], key]))
    } else if b[0] != Key::Null {
        (seq![b[0], key, Key::Null], Some(seq![b[0], key, Key::Null]))
    } else {
        (b, None)
    }
}

impl InputParser {
    pub fn new() -> (p: Self)
        ensures
            p.keychord_buf@ == empty_chord(),
    {
        InputParser { keychord_buf: [Key::Null, Key::Null, Key::Null] }
    }

    /// Feeds one key; gives the input it makes.
    pub fn next_key(&mut self, key: Key) -> (r: Input)
        requires
            chord_buffer_wf(old(self).keychord_buf@),
        ensures
            chord_buffer_wf(final(self).keychord_buf@),
            final(self).keychord_buf@ == chord_step(old(self).keychord_buf@, key).0,
            match chord_step(old(self).keychord_buf@, key).1 {
                Some(chord) => r matches Input::KeyChord(ks) && ks@ == chord,
                None => r == Input::Keypress(key),
            },
    {
        if key == Key::Ctrl('k') {
            self.keychord_buf = [Key::Ctrl('k'), Key::Null, Key::Null];
            Input::KeyChord([Key::Ctrl('k'), Key::Null, Key::Null])
        } else if self.keychord_buf[1] != Key::Null {
            let chord = [self.keychord_buf[0], self.keychord_buf[1], key];
            self.keychord_buf = [Key::Null, Key::Null, Key::Null];
            Input::KeyChord(chord)
        } else if self.keychord_buf[0] != Key::Null {
            self.keychord_buf = [self.keychord_buf[0], key, Key::Null];
            Input::KeyChord([self.keychord_buf[0], key, Key::Null])
        } else {
            Input::Keypress(key)
        }
    }
}

/// `Ctrl-k` followed by two keys other than `Ctrl-k` (the first not `Null`)
/// hands on the chord as it grows, `Ctrl-k` alone, then with the second key,
/// then complete, and leaves the buffer empty, whatever came before.
pub proof fn lemma_chord_of_three(b: Seq<Key>, a: Key, c: Key)
    requires
        chord_buffer_wf(b),
        a != Key::Ctrl('k'),
        a != Key::Null,
        c != Key::Ctrl('k'),
    ensures
        ({
            let (s1, out1) = chord_step(b, Key::Ctrl('k'));
            let (s2, out2) = chord_step(s1, a);
            let (s3, out3) = chord_step(s2, c);
            &&& out1 == Some(seq![Key::Ctrl('k'), Key::Null, Key::Null])
            &&& out2 == Some(seq![Key::Ctrl('k'), a, Key::Null])
            &&& out3 == Some(seq![Key::Ctrl('k'), a, c])
            &&& s3 == empty_chord()
        }),
{
}

/// Outside a chord, every key but `Ctrl-k` is handed on by itself and the
/// buffer stays empty.
pub proof fn lemma_plain_keys_pass_through(key: Key)
    requires
        key != Key::Ctrl('k'),
    ensures
        chord_step(empty_chord(), key) == (empty_chord(), None::<Seq<Key>>),
{
}

} // verus!
