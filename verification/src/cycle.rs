//! One input from the terminal or the rest of the program, taken by the
//! editor: the command it gives in the current mode, carried out.
use vstd::prelude::*;

use crate::commands::CommandExecutionResult;
use crate::cursor::Cursor;
use crate::editor::{Editor, EditorView};
use crate::execute::{action_view, step, step_defined, ActionView, EditorAction};
use crate::keys::Input;
use crate::modes::{command_binding, parse_defined};

verus! {

/// The editor with the cursor's current position remembered as its last.
pub open spec fn with_last_pos(e: Editor) -> Editor {
    Editor { cursor: Cursor { past_x: e.cursor.cur_x, past_y: e.cursor.cur_y, ..e.cursor }, ..e }
}

/// The inputs `step_input` can take: reading them and carrying out the
/// command they give stay within machine integers and the document.
pub open spec fn input_steppable(e: Editor, input: Input) -> bool {
    let e1 = with_last_pos(e);
    &&& parse_defined(e1, input)
    &&& match command_binding(e1, input) {
        Some(c) => step_defined(e1@, c),
        None => true,
    }
}

/// Taking one input: the position is remembered as the last one, then the
/// command the input gives (if any) is carried out; gives the new editor
/// and, when there was a command, whether to go on and the outside work.
pub open spec fn input_step(e: Editor, input: Input) -> (EditorView, Option<(CommandExecutionResult, Option<ActionView>)>) {
    let e1 = with_last_pos(e);
    match command_binding(e1, input) {
        Some(c) => {
            let (v, r, a) = step(e1@, c);
            (v, Some((r, a)))
        },
        None => (e1@, None),
    }
}

impl Editor {
    /// Remembers the cursor's position as its last one and says whether
    /// `step_input` can take `input` now.
    pub fn check_input(&mut self, input: &Input) -> (b: bool)
        ensures
            *final(self) == with_last_pos(*old(self)),
            b == input_steppable(*old(self), *input),
    {
        self.cursor.past_x = self.cursor.cur_x;
        self.cursor.past_y = self.cursor.cur_y;
        if !self.input_defined(input) {
            return false;
        }
        match input {
            Input::ExternalNotification(_) => self.cursor.jump_history_head <= self.cursor.jump_history.len(),
            Input::Keypress(k) => match self.parse_command(Input::Keypress(*k)) {
                Some(c) => self.command_defined(&c),
                None => true,
            },
            Input::KeyChord(ks) => match self.parse_command(Input::KeyChord(*ks)) {
                Some(c) => self.command_defined(&c),
                None => true,
            },
            Input::NoOp => match self.parse_command(Input::NoOp) {
                Some(c) => self.command_defined(&c),
                None => true,
            },
        }
    }

    /// Takes one input: remembers the cursor's position as its last one,
    /// then carries out the command the input gives in the current mode.
    /// Gives, when there was a command, whether to go on and the outside
    /// work it needs.
    pub fn step_input(&mut self, input: Input) -> (r: Option<(CommandExecutionResult, Option<EditorAction>)>)
        requires
            old(self).wf(),
            input_steppable(*old(self), input),
        ensures
            final(self).wf(),
            final(self)@ == input_step(*old(self), input).0,
            match r {
                Some((res, a)) => input_step(*old(self), input).1 == Some((res, action_view(a))),
                None => input_step(*old(self), input).1 is None,
            },
    {
        self.cursor.past_x = self.cursor.cur_x;
        self.cursor.past_y = self.cursor.cur_y;
        assert(*self == with_last_pos(*old(self)));
        match self.parse_command(input) {
            Some(c) => Some(self.execute_command(c)),
            None => None,
        }
    }
}

/// Checking an input and then taking it is taking it: the check only
/// remembers the position that taking the input remembers anyway.
pub proof fn lemma_check_then_step(e: Editor, input: Input)
    ensures
        with_last_pos(with_last_pos(e)) == with_last_pos(e),
        input_steppable(with_last_pos(e), input) == input_steppable(e, input),
        input_step(with_last_pos(e), input) == input_step(e, input),
{
    assert(with_last_pos(with_last_pos(e)) == with_last_pos(e));
}

} // verus!
