use vstd::prelude::*;

use crate::commands::Text;

verus! {

/// A copy of `t`.
pub fn copy_text(t: &Text) -> (r: Text)
    ensures
        r@ == t@,
{
    match t {
        Text::Empty => Text::Empty,
        Text::Char(c) => Text::Char(*c),
        Text::String(s) => Text::String(copy_chars(s)),
        Text::Lines(ls) => {
            let mut out: Vec<Vec<char>> = Vec::new();
            let mut i: usize = 0;
            while i < ls.len()
                invariant
                    i <= ls@.len(),
                    out@.len() == i,
                    forall|k: int| 0 <= k < i ==> #[trigger] out@[k]@ == ls@[k]@,
                decreases ls@.len() - i,
            {
                out.push(copy_chars(&ls[i]));
                i += 1;
            }
            let r = Text::Lines(out);
            assert(out@.map_values(|l: Vec<char>| l@) =~= ls@.map_values(|l: Vec<char>| l@));
            r
        },
    }
}

fn copy_chars(v: &Vec<char>) -> (r: Vec<char>)
    ensures
        r@ == v@,
{
    let mut r: Vec<char> = Vec::new();
    let mut i: usize = 0;
    while i < v.len()
        invariant
            i <= v@.len(),
            r@ == v@.take(i as int),
        decreases v@.len() - i,
    {
        r.push(v[i]);
        i += 1;
    }
    assert(v@.take(v@.len() as int) == v@);
    r
}

/// The clipboard kept by the editor itself, when the system's is not used.
pub struct BuiltinClipboardContext {
    pub text: Option<Text>,
}

impl BuiltinClipboardContext {
    pub fn new() -> (c: Self)
        ensures
            c.text is None,
    {
        BuiltinClipboardContext { text: None }
    }

    /// The text last put on the clipboard, if any.
    pub fn get_text(&mut self) -> (r: Option<Text>)
        ensures
            match old(self).text {
                Some(t) => r matches Some(u) && u@ == t@,
                None => r is None,
            },
            final(self).text == old(self).text,
    {
        match &self.text {
            Some(t) => Some(copy_text(t)),
            None => None,
        }
    }

    pub fn set_text(&mut self, text: Text)
        ensures
            final(self).text == Some(text),
    {
        self.text = Some(text);
    }
}

} // verus!
