use vstd::prelude::*;

verus! {

/// A position in a document: `(column, line)`, both counted from zero.
pub type Pos = (usize, usize);

/// `a` comes strictly before `b` in reading order (by line, then by column).
pub open spec fn pos_before(a: Pos, b: Pos) -> bool {
    a.1 < b.1 || (a.1 == b.1 && a.0 < b.0)
}

/// The mathematical model of a cursor.
pub struct CursorView {
    pub cur: Pos,
    pub ideal_x: usize,
    pub past: Pos,
    pub anchor: Option<Pos>,
    pub history: Seq<Pos>,
    pub head: nat,
}

impl CursorView {
    /// The jump-history head never points past the end of the history.
    pub open spec fn wf(self) -> bool {
        self.head <= self.history.len()
    }

    /// Moving to `p`; when `record` holds, the position left behind is
    /// inserted into the jump history at the head, and the head advances.
    pub open spec fn moved_to(self, p: Pos, record: bool) -> CursorView {
        CursorView {
            cur: p,
            ideal_x: p.0,
            history: if record { self.history.insert(self.head as int, self.cur) } else { self.history },
            head: if record { self.head + 1 } else { self.head },
            ..self
        }
    }

    /// Recording `p` as the jump just before the head, without moving.
    pub open spec fn jump_recorded(self, p: Pos) -> CursorView {
        CursorView { history: self.history.insert(self.head as int, p), head: self.head + 1, ..self }
    }

    /// Going back to the jump recorded just before the head, if there is one.
    /// Leaving the newest end of the history, the position left is kept as
    /// its last entry, so that going forward returns to it.
    pub open spec fn jumped_back(self) -> CursorView {
        if self.head > 0 && self.head - 1 < self.history.len() {
            let history = if self.head == self.history.len() { self.history.push(self.cur) } else { self.history };
            CursorView { head: (self.head - 1) as nat, history, ..self.moved_to(self.history[self.head - 1], false) }
        } else {
            self
        }
    }

    /// Going forward to the jump recorded just after the head, if there is one.
    pub open spec fn jumped_forward(self) -> CursorView {
        if self.head + 1 < self.history.len() {
            CursorView { head: self.head + 1, ..self.moved_to(self.history[self.head + 1 as int], false) }
        } else {
            self
        }
    }

    /// The selected range, ordered so that its start does not come after its end.
    pub open spec fn selected_range(self) -> Option<(Pos, Pos)> {
        match self.anchor {
            Some(a) => if pos_before(a, self.cur) { Some((a, self.cur)) } else { Some((self.cur, a)) },
            None => None,
        }
    }
}

pub struct Cursor {
    pub cur_x: usize,
    pub cur_y: usize,
    pub ideal_x: usize,
    pub past_x: usize,
    pub past_y: usize,
    pub selection_anchor: Option<(usize, usize)>,
    pub jump_history: Vec<(usize, usize)>,
    pub jump_history_head: usize,
}

impl View for Cursor {
    type V = CursorView;

    open spec fn view(&self) -> CursorView {
        CursorView {
            cur: (self.cur_x, self.cur_y),
            ideal_x: self.ideal_x,
            past: (self.past_x, self.past_y),
            anchor: self.selection_anchor,
            history: self.jump_history@,
            head: self.jump_history_head as nat,
        }
    }
}

impl Cursor {
    /// Moves the cursor to `new_pos`, which also becomes the ideal column.
    /// With `record`, the position left behind is kept in the jump history.
    pub fn update_pos(&mut self, new_pos: (usize, usize), record: bool)
        requires
            old(self)@.wf(),
        ensures
            final(self)@ == old(self)@.moved_to(new_pos, record),
            final(self)@.wf(),
    {
        let (new_x, new_y) = new_pos;
        if record {
            self.jump_history.insert(self.jump_history_head, (self.cur_x, self.cur_y));
            let n_jumps = self.jump_history.len();
            assert(self.jump_history_head < n_jumps);
            self.jump_history_head += 1;
        }
        self.cur_x = new_x;
        self.cur_y = new_y;
        self.ideal_x = new_x;
    }

    /// Records `p` as the latest jump (the one a jump back goes to), without
    /// moving the cursor.
    pub fn record_jump(&mut self, p: (usize, usize))
        requires
            old(self)@.wf(),
        ensures
            final(self)@ == old(self)@.jump_recorded(p),
            final(self)@.wf(),
    {
        self.jump_history.insert(self.jump_history_head, p);
        assert(self.jump_history_head < self.jump_history.len());
        self.jump_history_head += 1;
    }

    /// Goes back to the previous jump, if any; leaving the newest end of the
    /// history, the position left is kept so that a jump forward returns.
    pub fn jump_back(&mut self)
        requires
            old(self)@.wf(),
        ensures
            final(self)@ == old(self)@.jumped_back(),
            final(self)@.wf(),
    {
        if self.jump_history_head > 0 && self.jump_history_head - 1 < self.jump_history.len() {
            let old_position = self.jump_history[self.jump_history_head - 1];
            if self.jump_history_head == self.jump_history.len() {
                self.jump_history.push((self.cur_x, self.cur_y));
            }
            self.update_pos(old_position, false);
            self.jump_history_head -= 1;
        }
    }

    /// Goes forward to the next jump, if any.
    pub fn jump_forward(&mut self)
        requires
            old(self)@.wf(),
        ensures
            final(self)@ == old(self)@.jumped_forward(),
            final(self)@.wf(),
    {
        if self.jump_history_head < self.jump_history.len()
            && self.jump_history_head + 1 < self.jump_history.len() {
            let new_position = self.jump_history[self.jump_history_head + 1];
            self.update_pos(new_position, false);
            self.jump_history_head += 1;
        }
    }

    /// Remembers the current position as the last one.
    pub fn set_last_pos(&mut self)
        ensures
            final(self)@ == (CursorView { past: old(self)@.cur, ..old(self)@ }),
    {
        self.past_x = self.cur_x;
        self.past_y = self.cur_y;
    }

    /// Moves down by `lines` (saturating) at the ideal column; a move of more
    /// than one line is recorded as a jump.
    pub fn move_down(&mut self, lines: usize)
        requires
            old(self)@.wf(),
        ensures
            final(self)@ == old(self)@.moved_to(
                (old(self).ideal_x, if old(self).cur_y + lines > usize::MAX { usize::MAX } else { (old(self).cur_y + lines) as usize }),
                lines > 1,
            ),
            final(self)@.wf(),
    {
        let y = self.cur_y.saturating_add(lines);
        self.update_pos((self.ideal_x, y), lines > 1);
    }

    /// Moves up by `lines` (saturating at the first line) at the ideal column;
    /// a move of more than one line is recorded as a jump.
    pub fn move_up(&mut self, lines: usize)
        requires
            old(self)@.wf(),
        ensures
            final(self)@ == old(self)@.moved_to(
                (old(self).ideal_x, if old(self).cur_y < lines { 0 } else { (old(self).cur_y - lines) as usize }),
                lines > 1,
            ),
            final(self)@.wf(),
    {
        let y = self.cur_y.saturating_sub(lines);
        self.update_pos((self.ideal_x, y), lines > 1);
    }

    /// Moves right by `cols` (saturating); a move of more than one column is
    /// recorded as a jump.
    pub fn move_right(&mut self, cols: usize)
        requires
            old(self)@.wf(),
        ensures
            final(self)@ == old(self)@.moved_to(
                (if old(self).cur_x + cols > usize::MAX { usize::MAX } else { (old(self).cur_x + cols) as usize }, old(self).cur_y),
                cols > 1,
            ),
            final(self)@.wf(),
    {
        let x = self.cur_x.saturating_add(cols);
        self.update_pos((x, self.cur_y), cols > 1);
    }

    /// Moves left by `cols` (saturating at the first column); a move of more
    /// than one column is recorded as a jump.
    pub fn move_left(&mut self, cols: usize)
        requires
            old(self)@.wf(),
        ensures
            final(self)@ == old(self)@.moved_to(
                (if old(self).cur_x < cols { 0 } else { (old(self).cur_x - cols) as usize }, old(self).cur_y),
                cols > 1,
            ),
            final(self)@.wf(),
    {
        let x = self.cur_x.saturating_sub(cols);
        self.update_pos((x, self.cur_y), cols > 1);
    }

    /// A cursor at `starting_pos`, with no selection and an empty jump history.
    pub fn new(starting_pos: (usize, usize)) -> (c: Self)
        ensures
            c@ == (CursorView {
                cur: starting_pos,
                ideal_x: starting_pos.0,
                past: starting_pos,
                anchor: None,
                history: Seq::empty(),
                head: 0,
            }),
            c@.wf(),
    {
        let (x, y) = starting_pos;
        Cursor {
            cur_x: x,
            cur_y: y,
            ideal_x: x,
            past_x: x,
            past_y: y,
            selection_anchor: None,
            jump_history: Vec::new(),
            jump_history_head: 0,
        }
    }

    pub fn pos(&self) -> (p: (usize, usize))
        ensures
            p == self@.cur,
    {
        (self.cur_x, self.cur_y)
    }

    /// The range between the selection anchor and the cursor, start first.
    pub fn get_selected_range(&self) -> (r: Option<((usize, usize), (usize, usize))>)
        ensures
            r == self@.selected_range(),
    {
        let cursor_pos = self.pos();
        match self.selection_anchor {
            Some(anchor_pos) => {
                if anchor_pos.1 < cursor_pos.1 || (anchor_pos.1 == cursor_pos.1 && anchor_pos.0 < cursor_pos.0) {
                    Some((anchor_pos, cursor_pos))
                } else {
                    Some((cursor_pos, anchor_pos))
                }
            },
            None => None,
        }
    }
}

/// Going back after a recorded move returns to where the move started,
/// with the head where it was before the move.
pub proof fn lemma_jump_back_undoes_recorded_move(c: CursorView, p: Pos)
    requires
        c.wf(),
    ensures
        c.moved_to(p, true).jumped_back().cur == c.cur,
        c.moved_to(p, true).jumped_back().head == c.head,
        c.moved_to(p, true).jumped_back().history == (if c.head == c.history.len() {
            c.history.insert(c.head as int, c.cur).push(p)
        } else {
            c.history.insert(c.head as int, c.cur)
        }),
{
}

/// Going back and then forward brings the head back. From the newest end of
/// the history it returns to the position left; elsewhere it lands on the
/// jump recorded at the head.
pub proof fn lemma_jump_back_then_forward(c: CursorView)
    requires
        c.wf(),
        0 < c.head,
    ensures
        c.jumped_back().jumped_forward().head == c.head,
        c.head == c.history.len() ==> c.jumped_back().jumped_forward().cur == c.cur,
        c.head < c.history.len() ==> c.jumped_back().jumped_forward().cur == c.history[c.head as int],
        c.jumped_back().jumped_forward().history
            == (if c.head == c.history.len() { c.history.push(c.cur) } else { c.history }),
{
}

/// A recorded move, a jump back and a jump forward return to the position
/// moved to, when the move was made at the newest end of the history.
pub proof fn lemma_jump_forward_returns(c: CursorView, p: Pos)
    requires
        c.wf(),
        c.head == c.history.len(),
    ensures
        c.moved_to(p, true).jumped_back().jumped_forward().cur == p,
{
    lemma_jump_back_then_forward(c.moved_to(p, true));
}

/// A move that is not recorded leaves the jump history and its head alone.
pub proof fn lemma_unrecorded_move_keeps_history(c: CursorView, p: Pos)
    ensures
        c.moved_to(p, false).history == c.history,
        c.moved_to(p, false).head == c.head,
        c.moved_to(p, false).cur == p,
{
}

/// The selected range starts at or before its end, and its ends are the
/// anchor and the cursor.
pub proof fn lemma_selected_range_ordered(c: CursorView)
    requires
        c.anchor is Some,
    ensures
        c.selected_range() matches Some((s, e)) && !pos_before(e, s)
            && ((s == c.anchor->0 && e == c.cur) || (s == c.cur && e == c.anchor->0)),
{
}

} // verus!
