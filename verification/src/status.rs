use vstd::prelude::*;

use crate::text::chars_of;

verus! {

/// What happens with the prompt line once it is submitted.
#[derive(Clone, Copy, PartialEq, Eq, Structural)]
pub enum SubmitAction {
    /// Take the line as the name of the file to save to.
    SetFile,
    /// Run the file with the line as the command.
    RunWith,
    /// Run the line as an editor command.
    CommandLine,
}

/// The bottom line: a prompt being typed, or a notification.
pub struct StatusBar {
    pub prompt_line: Vec<char>,
    pub notification: Vec<char>,
    pub cursor_pos: usize,
    pub submit_action: Option<SubmitAction>,
}

impl StatusBar {
    pub fn new() -> (s: Self)
        ensures
            s.prompt_line@ == Seq::<char>::empty(),
            s.notification@ == Seq::<char>::empty(),
            s.cursor_pos == 0,
            s.submit_action is None,
    {
        StatusBar { prompt_line: Vec::new(), notification: Vec::new(), cursor_pos: 0, submit_action: None }
    }

    /// Replaces the notification with `msg`.
    pub fn update_notification(&mut self, msg: &str)
        ensures
            final(self).notification@ == msg@,
            final(self).prompt_line == old(self).prompt_line,
            final(self).cursor_pos == old(self).cursor_pos,
            final(self).submit_action == old(self).submit_action,
    {
        self.notification = chars_of(msg);
    }

    /// Types `ch` at `pos_x` on the prompt line; the prompt cursor goes after it.
    pub fn insert_char(&mut self, pos_x: usize, ch: char)
        requires
            pos_x <= old(self).prompt_line@.len(),
            pos_x < usize::MAX,
        ensures
            final(self).prompt_line@ == old(self).prompt_line@.insert(pos_x as int, ch),
            final(self).cursor_pos == pos_x + 1,
            final(self).notification == old(self).notification,
            final(self).submit_action == old(self).submit_action,
    {
        self.prompt_line.insert(pos_x, ch);
        self.cursor_pos = pos_x + 1;
    }

    /// Deletes the character before `pos_x` on the prompt line; the prompt
    /// cursor goes where it was.
    pub fn delete_char_before(&mut self, pos_x: usize)
        requires
            0 < pos_x <= old(self).prompt_line@.len(),
        ensures
            final(self).prompt_line@ == old(self).prompt_line@.remove(pos_x - 1),
            final(self).cursor_pos == pos_x - 1,
            final(self).notification == old(self).notification,
            final(self).submit_action == old(self).submit_action,
    {
        self.prompt_line.remove(pos_x - 1);
        self.cursor_pos = pos_x - 1;
    }

    /// Empties the prompt line and takes the submit action; gives both.
    pub fn take_prompt(&mut self) -> (r: (Vec<char>, Option<SubmitAction>))
        ensures
            r.0@ == old(self).prompt_line@,
            r.1 == old(self).submit_action,
            final(self).prompt_line@ == Seq::<char>::empty(),
            final(self).submit_action is None,
            final(self).cursor_pos == old(self).cursor_pos,
            final(self).notification == old(self).notification,
    {
        let prompt = self.prompt_line.split_off(0);
        let taken = self.submit_action;
        self.submit_action = None;
        (prompt, taken)
    }
}

} // verus!
