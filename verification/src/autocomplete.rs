use vstd::prelude::*;

verus! {

/// Completions offered for the word being typed.
pub struct EditorAutocomplete {
    pub choices: Vec<Vec<char>>,
    pub selected_idx: usize,
    /// How many characters of the word are already written.
    pub written_offset: usize,
}

/// The first of the choices shown when at most `max` of `n` choices fit and
/// choice `selected` is selected.
pub open spec fn window_start(selected: int, n: int, max: int) -> int {
    let by_selection = if selected + 1 >= max { selected + 1 - max } else { 0 };
    let by_end = if n >= max { n - max } else { 0 };
    if by_selection <= by_end { by_selection } else { by_end }
}

pub open spec fn window_end(selected: int, n: int, max: int) -> int {
    let e = window_start(selected, n, max) + max;
    if e <= n { e } else { n }
}

impl EditorAutocomplete {
    pub fn new() -> (a: Self)
        ensures
            a.choices@ == Seq::<Vec<char>>::empty(),
            a.selected_idx == 0,
            a.written_offset == 0,
    {
        EditorAutocomplete { choices: Vec::new(), selected_idx: 0, written_offset: 0 }
    }

    /// The choices that fit in a list of `max_choices` entries, scrolled so
    /// that the selected one is shown.
    pub fn get_displayable_choices(&self, max_choices: usize) -> (r: &[Vec<char>])
        requires
            self.selected_idx < usize::MAX,
        ensures
            r@ == self.choices@.subrange(
                window_start(self.selected_idx as int, self.choices@.len() as int, max_choices as int),
                window_end(self.selected_idx as int, self.choices@.len() as int, max_choices as int),
            ),
    {
        let n = self.choices.len();
        let by_selection = (self.selected_idx + 1).saturating_sub(max_choices);
        let by_end = n.saturating_sub(max_choices);
        let start = if by_selection <= by_end { by_selection } else { by_end };
        let end = if max_choices <= n - start { start + max_choices } else { n };
        vstd::slice::slice_subrange(self.choices.as_slice(), start, end)
    }

    /// Takes the selected choice out of the list and returns the part of it
    /// not yet written; nothing when no choice is selected.
    pub fn get_selected_choice(&mut self) -> (r: Vec<char>)
        requires
            old(self).selected_idx < old(self).choices@.len()
                ==> old(self).written_offset <= old(self).choices@[old(self).selected_idx as int]@.len(),
        ensures
            final(self).selected_idx == old(self).selected_idx,
            final(self).written_offset == old(self).written_offset,
            old(self).selected_idx >= old(self).choices@.len() ==> {
                &&& r@ == Seq::<char>::empty()
                &&& final(self).choices@ == old(self).choices@
            },
            old(self).selected_idx < old(self).choices@.len() ==> {
                let i = old(self).selected_idx as int;
                let word = old(self).choices@[i]@;
                &&& r@ == word.subrange(old(self).written_offset as int, word.len() as int)
                &&& final(self).choices@ == old(self).choices@.update(i, old(self).choices@.last()).drop_last()
            },
    {
        if self.selected_idx >= self.choices.len() {
            return Vec::new();
        }
        let mut full_word = self.choices.swap_remove(self.selected_idx);
        full_word.split_off(self.written_offset)
    }
}

/// The selected choice is always among those shown, and as many choices are
/// shown as fit.
pub proof fn lemma_selected_choice_shown(selected: int, n: int, max: int)
    requires
        0 <= selected < n,
        max > 0,
    ensures
        0 <= window_start(selected, n, max) <= selected < window_end(selected, n, max) <= n,
        window_end(selected, n, max) - window_start(selected, n, max) == (if n <= max { n } else { max }),
{
}

} // verus!
