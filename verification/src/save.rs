//! What saving writes: which lines, and where each starts in the file.
use vstd::prelude::*;

use crate::editor::{Editor, EditorView};
use crate::modes::EditorMode;
use crate::status::SubmitAction;
use crate::text::chars_of;

verus! {

/// How a save begins.
pub enum SaveStart {
    /// Nothing is saved; the message says why.
    Refuse(Vec<char>),
    /// A file name is asked for first (the prompt is open).
    AskForName,
    /// The file is written; `create_file` says whether it must be created
    /// first.
    Write { create_file: bool },
}

/// Where writing starts in the file.
#[derive(Clone, Copy, PartialEq, Eq, Structural)]
pub enum FileCut {
    /// Cut the file to this length and write from its end.
    Truncate(u64),
    /// Write from the end, after a line end.
    AppendLineEnd,
    /// Write from the end.
    AtEnd,
    /// Empty the file and write it whole.
    Clear,
}

pub open spec fn output_view_refusal() -> Seq<char> {
    "Currently viewing execution output, won't save"@
}

impl Editor {
    /// Begins a save of the document to its file (`has_file`: the file is
    /// open; `path_is_empty`: no path is known): the output of a run is not
    /// saved; without a file or a path, a file name is asked for; otherwise
    /// the file is written, created first when it is not open.
    pub fn save_start(&mut self, has_file: bool, path_is_empty: bool) -> (r: SaveStart)
        ensures
            old(self).is_viewing_execution_output ==> final(self)@ == old(self)@
                && (r matches SaveStart::Refuse(m) && m@ == output_view_refusal()),
            !old(self).is_viewing_execution_output && !has_file && path_is_empty ==> r is AskForName
                && final(self)@ == (EditorView {
                    mode: EditorMode::Prompt("File name: "),
                    submit_action: Some(SubmitAction::SetFile),
                    ..old(self)@
                }),
            !old(self).is_viewing_execution_output && (has_file || !path_is_empty) ==> final(self)@ == old(self)@
                && (r matches SaveStart::Write { create_file } && create_file == !has_file),
    {
        if self.is_viewing_execution_output {
            return SaveStart::Refuse(chars_of("Currently viewing execution output, won't save"));
        }
        if !has_file && path_is_empty {
            self.prompt_user("File name: ", SubmitAction::SetFile);
            return SaveStart::AskForName;
        }
        SaveStart::Write { create_file: !has_file }
    }
}

/// Which line writing starts from and where in the file (`modified` has a
/// flag per line of the document, `offsets` where each saved line starts).
/// When the file is as the last save left it (`untouched`): from the first
/// changed line, cutting the file where that line started; a changed line
/// past the saved ones goes after a line end ending the last saved line; with
/// no line changed nothing is written. Otherwise the whole document goes
/// into an emptied file.
pub fn save_plan(untouched: bool, modified: &Vec<bool>, offsets: &Vec<u64>) -> (r: (usize, FileCut))
    ensures
        !untouched ==> r == (0usize, FileCut::Clear),
        untouched ==> r.0 == first_modified(modified@),
        untouched && r.0 < offsets@.len() ==> r.1 == FileCut::Truncate(offsets@[r.0 as int]),
        untouched && offsets@.len() <= r.0 < modified@.len() && offsets@.len() > 0 ==> r.1 == FileCut::AppendLineEnd,
        untouched && r.0 >= offsets@.len() && (r.0 == modified@.len() || offsets@.len() == 0) ==> r.1 == FileCut::AtEnd,
{
    if !untouched {
        return (0, FileCut::Clear);
    }
    let first = first_modified_line(modified);
    if first < offsets.len() {
        (first, FileCut::Truncate(offsets[first]))
    } else if first < modified.len() && offsets.len() > 0 {
        (first, FileCut::AppendLineEnd)
    } else {
        (first, FileCut::AtEnd)
    }
}

/// Saving an unchanged document into the file the last save left starts
/// after the last line and writes no line, so the file stays as it is.
pub proof fn lemma_unchanged_save_writes_nothing(modified: Seq<bool>, byte_lens: Seq<usize>, start: int)
    requires
        forall|i: int| 0 <= i < modified.len() ==> !#[trigger] modified[i],
        byte_lens.len() == modified.len(),
    ensures
        first_modified(modified) == modified.len(),
        layout(byte_lens, modified.len() as int, 0, start) == (Seq::<int>::empty(), 0int),
    decreases modified.len(),
{
    if modified.len() > 0 {
        let rest = modified.drop_first();
        assert forall|i: int| 0 <= i < rest.len() implies !#[trigger] rest[i] by {
            assert(rest[i] == modified[i + 1]);
        }
        lemma_unchanged_save_writes_nothing(rest, byte_lens.drop_first(), start);
        assert(!modified[0]);
    }
}

/// The line offsets after a save that wrote from line `first` on: those of
/// the lines before it, then the new ones.
pub fn offsets_after_save(offsets: &Vec<u64>, first: usize, new_offsets: &Vec<u64>) -> (r: Vec<u64>)
    ensures
        r@ == offsets@.take(if first <= offsets@.len() { first as int } else { offsets@.len() as int }) + new_offsets@,
{
    let keep = if first <= offsets.len() { first } else { offsets.len() };
    let mut r: Vec<u64> = Vec::new();
    let mut i: usize = 0;
    while i < keep
        invariant
            keep <= offsets@.len(),
            i <= keep,
            r@ == offsets@.take(i as int),
        decreases keep - i,
    {
        r.push(offsets[i]);
        assert(offsets@.take(i + 1) == offsets@.take(i as int).push(offsets@[i as int]));
        i += 1;
    }
    let mut j: usize = 0;
    while j < new_offsets.len()
        invariant
            j <= new_offsets@.len(),
            r@ == offsets@.take(keep as int) + new_offsets@.take(j as int),
        decreases new_offsets@.len() - j,
    {
        r.push(new_offsets[j]);
        assert(new_offsets@.take(j + 1) == new_offsets@.take(j as int).push(new_offsets@[j as int]));
        j += 1;
    }
    assert(new_offsets@.take(new_offsets@.len() as int) == new_offsets@);
    r
}

/// The first line changed since the last save, or the number of lines when
/// none was.
pub open spec fn first_modified(modified: Seq<bool>) -> int
    decreases modified.len(),
{
    if modified.len() == 0 {
        0
    } else if modified[0] {
        0
    } else {
        1 + first_modified(modified.drop_first())
    }
}

/// The bytes line `idx` of `n_lines` takes in the file: its text, and a
/// line end unless it is the last line.
pub open spec fn stored_len(byte_len: int, idx: int, n_lines: int) -> int {
    if idx != n_lines - 1 { byte_len + 1 } else { byte_len }
}

/// Where each of the lines from `from` on starts when the first of them
/// starts at `start`, and the bytes they take together.
pub open spec fn layout(byte_lens: Seq<usize>, from: int, k: int, start: int) -> (Seq<int>, int)
    decreases k,
{
    if k <= 0 {
        (Seq::empty(), 0)
    } else {
        let (offsets, written) = layout(byte_lens, from, k - 1, start);
        let idx = from + k - 1;
        (offsets.push(start + written), written + stored_len(byte_lens[idx] as int, idx, byte_lens.len() as int))
    }
}

/// The first line changed since the last save.
pub fn first_modified_line(modified: &Vec<bool>) -> (i: usize)
    ensures
        i == first_modified(modified@),
        i <= modified@.len(),
        forall|j: int| 0 <= j < i ==> !modified@[j],
        i < modified@.len() ==> modified@[i as int],
{
    let mut i: usize = 0;
    assert(modified@.skip(0) == modified@);
    while i < modified.len() && !modified[i]
        invariant
            i <= modified@.len(),
            forall|j: int| 0 <= j < i ==> !modified@[j],
            first_modified(modified@) == i + first_modified(modified@.skip(i as int)),
        decreases modified@.len() - i,
    {
        assert(modified@.skip(i as int).drop_first() == modified@.skip(i + 1));
        assert(modified@.skip(i as int)[0] == modified@[i as int]);
        i += 1;
    }
    assert(first_modified(modified@.skip(i as int)) == 0) by {
        if i < modified@.len() {
            assert(modified@.skip(i as int)[0] == modified@[i as int]);
        }
    }
    i
}

/// Where the lines from `first` on start in the saved file when the first
/// of them starts at `start` (lines of `byte_lens` bytes each, separated by
/// line ends), and how many bytes they take.
pub fn line_offsets_from(byte_lens: &Vec<usize>, first: usize, start: u64) -> (r: (Vec<u64>, u64))
    requires
        first <= byte_lens@.len(),
        start + byte_lens@.len() + (total_len(byte_lens@)) <= u64::MAX,
    ensures
        r.0@.map_values(|o: u64| o as int) == layout(byte_lens@, first as int, byte_lens@.len() - first, start as int).0,
        r.1 == layout(byte_lens@, first as int, byte_lens@.len() - first, start as int).1,
{
    let n = byte_lens.len();
    let mut offsets: Vec<u64> = Vec::new();
    let mut written: u64 = 0;
    let mut idx = first;
    while idx < n
        invariant
            first <= idx <= n,
            n == byte_lens@.len(),
            start + n + total_len(byte_lens@) <= u64::MAX,
            offsets@.map_values(|o: u64| o as int) == layout(byte_lens@, first as int, idx - first, start as int).0,
            written == layout(byte_lens@, first as int, idx - first, start as int).1,
            written <= (idx - first) + sum_range(byte_lens@, first as int, idx as int),
        decreases n - idx,
    {
        proof {
            lemma_sum_range_bounded(byte_lens@, first as int, idx as int + 1);
        }
        let len = byte_lens[idx];
        let stored: u64 = if idx != n - 1 { len as u64 + 1 } else { len as u64 };
        offsets.push(start + written);
        written = written + stored;
        proof {
            assert(offsets@.map_values(|o: u64| o as int) =~= layout(byte_lens@, first as int, idx - first + 1, start as int).0);
        }
        idx += 1;
    }
    (offsets, written)
}

/// The sum of `s[from..to]`.
pub open spec fn sum_range(s: Seq<usize>, from: int, to: int) -> int
    decreases to - from,
{
    if to <= from { 0 } else { sum_range(s, from, to - 1) + s[to - 1] }
}

/// The sum of all of `s`.
pub open spec fn total_len(s: Seq<usize>) -> int {
    sum_range(s, 0, s.len() as int)
}

proof fn lemma_sum_range_bounded(s: Seq<usize>, from: int, to: int)
    requires
        0 <= from <= to <= s.len(),
    ensures
        0 <= sum_range(s, from, to) <= total_len(s),
    decreases s.len() - to + (to - from),
{
    lemma_sum_range_split(s, 0, from, to);
    lemma_sum_range_split(s, 0, to, s.len() as int);
    lemma_sum_nonneg(s, 0, from);
    lemma_sum_nonneg(s, to, s.len() as int);
    lemma_sum_nonneg(s, from, to);
}

proof fn lemma_sum_nonneg(s: Seq<usize>, from: int, to: int)
    requires
        0 <= from <= to <= s.len(),
    ensures
        sum_range(s, from, to) >= 0,
    decreases to - from,
{
    if from < to {
        lemma_sum_nonneg(s, from, to - 1);
    }
}

proof fn lemma_sum_range_split(s: Seq<usize>, a: int, b: int, c: int)
    requires
        0 <= a <= b <= c <= s.len(),
    ensures
        sum_range(s, a, c) == sum_range(s, a, b) + sum_range(s, b, c),
    decreases c - b,
{
    if b < c {
        lemma_sum_range_split(s, a, b, c - 1);
    }
}

/// The text lines `from..from + k` of `lines` take in the file: each line,
/// followed by a line end unless it is the last line.
pub open spec fn text_layout(lines: Seq<Seq<char>>, from: int, k: int) -> Seq<char>
    decreases k,
{
    if k <= 0 {
        Seq::empty()
    } else {
        let idx = from + k - 1;
        text_layout(lines, from, k - 1) + lines[idx] + (if idx != lines.len() - 1 { seq!['\n'] } else { Seq::empty() })
    }
}

/// What a save writes from line `first` on: those lines, each followed by a
/// line end unless it is the last one.
pub fn save_text(lines: &Vec<Vec<char>>, first: usize) -> (t: Vec<char>)
    requires
        first <= lines@.len(),
    ensures
        t@ == text_layout(lines@.map_values(|l: Vec<char>| l@), first as int, lines@.len() - first),
{
    let ghost ls = lines@.map_values(|l: Vec<char>| l@);
    let n = lines.len();
    let mut t: Vec<char> = Vec::new();
    let mut idx = first;
    while idx < n
        invariant
            first <= idx <= n,
            n == lines@.len(),
            ls == lines@.map_values(|l: Vec<char>| l@),
            t@ == text_layout(ls, first as int, idx - first),
        decreases n - idx,
    {
        let line = &lines[idx];
        assert(ls[idx as int] == line@);
        let ghost before = t@;
        let mut j: usize = 0;
        while j < line.len()
            invariant
                j <= line@.len(),
                t@ == before + line@.take(j as int),
            decreases line@.len() - j,
        {
            t.push(line[j]);
            assert(line@.take(j + 1) == line@.take(j as int).push(line@[j as int]));
            j += 1;
        }
        assert(line@.take(line@.len() as int) == line@);
        if idx != n - 1 {
            t.push('\n');
        }
        assert(t@ =~= text_layout(ls, first as int, idx - first + 1));
        idx += 1;
    }
    t
}

/// The offsets of the lines from `from` on all start with the first one's.
proof fn lemma_layout_starts_at(b: Seq<usize>, from: int, k: int, start: int)
    requires
        k >= 1,
    ensures
        layout(b, from, k, start).0.len() == k,
        layout(b, from, k, start).0[0] == start,
    decreases k,
{
    lemma_layout_len(b, from, k, start);
    if k > 1 {
        lemma_layout_starts_at(b, from, k - 1, start);
    } else {
        assert(layout(b, from, 0, start) == (Seq::<int>::empty(), 0int));
    }
}

proof fn lemma_layout_len(b: Seq<usize>, from: int, k: int, start: int)
    requires
        k >= 0,
    ensures
        layout(b, from, k, start).0.len() == k,
    decreases k,
{
    if k > 0 {
        lemma_layout_len(b, from, k - 1, start);
    }
}

/// A save that keeps the lines before `first` and writes the rest from
/// where they end gives the layout of the whole document: the offsets kept
/// followed by those written are the offsets of all lines, and the bytes
/// kept and written add up to all of them.
pub proof fn lemma_save_keeps_layout(b: Seq<usize>, first: int, k: int)
    requires
        0 <= first,
        0 <= k,
    ensures
        ({
            let (kept, kept_len) = layout(b, 0, first, 0);
            let (written, written_len) = layout(b, first, k, kept_len);
            layout(b, 0, first + k, 0) == (kept + written, kept_len + written_len)
        }),
    decreases k,
{
    if k > 0 {
        lemma_save_keeps_layout(b, first, k - 1);
        let (kept, kept_len) = layout(b, 0, first, 0);
        let (w, wl) = layout(b, first, k - 1, kept_len);
        assert(kept + w.push(kept_len + wl) =~= (kept + w).push(0 + (kept_len + wl)));
    }
}

/// In the layout of the whole document, line `i` starts where the lines
/// before it end.
pub proof fn lemma_offset_after_lines_before(b: Seq<usize>, i: int, n: int)
    requires
        0 <= i < n,
    ensures
        layout(b, 0, n, 0).0[i] == layout(b, 0, i, 0).1,
{
    lemma_save_keeps_layout(b, i, n - i);
    lemma_layout_len(b, 0, i, 0);
    lemma_layout_starts_at(b, i, n - i, layout(b, 0, i, 0).1);
}

/// A save that keeps the text of the lines before `first` and writes the
/// rest after it leaves the whole document's text in the file: the lines
/// joined by line ends.
pub proof fn lemma_save_keeps_text(lines: Seq<Seq<char>>, first: int, k: int)
    requires
        0 <= first,
        0 <= k,
    ensures
        text_layout(lines, 0, first + k) == text_layout(lines, 0, first) + text_layout(lines, first, k),
    decreases k,
{
    if k > 0 {
        lemma_save_keeps_text(lines, first, k - 1);
        let a = text_layout(lines, 0, first);
        let w = text_layout(lines, first, k - 1);
        let idx = first + k - 1;
        assert((a + w) + lines[idx] + (if idx != lines.len() - 1 { seq!['\n'] } else { Seq::<char>::empty() })
            =~= a + (w + lines[idx] + (if idx != lines.len() - 1 { seq!['\n'] } else { Seq::<char>::empty() })));
    }
}

} // verus!
