use vstd::prelude::*;

use crate::cursor::Pos;
use crate::keys::Key;
use crate::modes::EditorMode;

verus! {

/// Text moved in and out of the document.
pub enum Text {
    Empty,
    Char(char),
    String(Vec<char>),
    Lines(Vec<Vec<char>>),
}

/// An edit that the document applies.
pub enum EditOperation {
    Insertion { pos: Pos, text: Text },
    Deletion { pos: Pos },
    Replacement { pos_from: Pos, pos_to: Pos, text: Text },
    /// Deletes from the start of the word before `pos` up to `pos`.
    DeletePreviousWord { pos: Pos },
}

/// Where a cursor movement goes.
#[derive(Clone, Copy)]
pub enum CursorMovement {
    AbsolutePos((usize, usize)),
    Up(usize),
    Down(usize),
    Left(usize),
    Right(usize),
    NextWordEnd,
    PreviousWordStart,
    NextParagraph,
    PreviousParagraph,
    StartOfLine,
    EndOfLine,
    StartOfFile,
    EndOfFile,
    MatchingParenthesis,
    NextOccurrenceOf(char),
    PreviousOccurrenceOf(char),
    NextJump,
    PreviousJump,
}

/// What runs the file being edited.
pub enum Executor {
    Key(Key),
    Literal(Vec<char>),
}

pub enum EditorCommand {
    Quit,
    Save,
    MoveCursor { movement: CursorMovement, with_selection: bool },
    ToggleLockSelection,
    ClearSelection,
    SwitchMode(EditorMode),
    Edit(EditOperation),
    YankSelection,
    CutSelection,
    Paste,
    UndoLastEdit,
    RedoLastEdit,
    MovePromptCursorLeft,
    MovePromptCursorRight,
    InsertCharPrompt { pos_x: usize, ch: char },
    DeleteCharPrompt { pos_x: usize },
    SubmitPrompt,
    ToggleLineNumbers,
    ScrollViewportUp,
    ScrollViewportDown,
    FindMatchForward,
    FindMatchBackward,
    PromptExecutor,
    OpenCommandLine,
    ExecuteFile(Key),
    DisplayMessage(Vec<char>),
    EndFileExecution(Vec<char>, bool),
    DisplayHelp,
    DisplayChordsHelp,
    DisplayExecuteChordHelp,
    DisplayLineChordHelp,
    DisplayViewChordHelp,
    DisplaySelectionChordHelp,
    DisplayPressCharacterPopup,
    ViewExecutionOutput,
    AutocompleteDisplay,
    AutocompleteNext,
    AutocompletePrevious,
    AutocompleteInsert,
}

#[derive(Clone, Copy, PartialEq, Eq, Structural)]
pub enum CommandExecutionResult {
    Continue,
    ShouldQuit,
}

/// The model of a text: its characters or lines as sequences.
pub enum TextView {
    Empty,
    Char(char),
    String(Seq<char>),
    Lines(Seq<Seq<char>>),
}

impl View for Text {
    type V = TextView;

    open spec fn view(&self) -> TextView {
        match self {
            Text::Empty => TextView::Empty,
            Text::Char(c) => TextView::Char(*c),
            Text::String(s) => TextView::String(s@),
            Text::Lines(ls) => TextView::Lines(ls@.map_values(|l: Vec<char>| l@)),
        }
    }
}

pub enum EditView {
    Insertion { pos: Pos, text: TextView },
    Deletion { pos: Pos },
    Replacement { pos_from: Pos, pos_to: Pos, text: TextView },
    DeletePreviousWord { pos: Pos },
}

impl View for EditOperation {
    type V = EditView;

    open spec fn view(&self) -> EditView {
        match self {
            EditOperation::Insertion { pos, text } => EditView::Insertion { pos: *pos, text: text@ },
            EditOperation::Deletion { pos } => EditView::Deletion { pos: *pos },
            EditOperation::Replacement { pos_from, pos_to, text } =>
                EditView::Replacement { pos_from: *pos_from, pos_to: *pos_to, text: text@ },
            EditOperation::DeletePreviousWord { pos } => EditView::DeletePreviousWord { pos: *pos },
        }
    }
}

/// The model of a command: texts as sequences.
pub enum CommandView {
    Quit,
    Save,
    MoveCursor { movement: CursorMovement, with_selection: bool },
    ToggleLockSelection,
    ClearSelection,
    SwitchMode(EditorMode),
    Edit(EditView),
    YankSelection,
    CutSelection,
    Paste,
    UndoLastEdit,
    RedoLastEdit,
    MovePromptCursorLeft,
    MovePromptCursorRight,
    InsertCharPrompt { pos_x: usize, ch: char },
    DeleteCharPrompt { pos_x: usize },
    SubmitPrompt,
    ToggleLineNumbers,
    ScrollViewportUp,
    ScrollViewportDown,
    FindMatchForward,
    FindMatchBackward,
    PromptExecutor,
    OpenCommandLine,
    ExecuteFile(Key),
    DisplayMessage(Seq<char>),
    EndFileExecution(Seq<char>, bool),
    DisplayHelp,
    DisplayChordsHelp,
    DisplayExecuteChordHelp,
    DisplayLineChordHelp,
    DisplayViewChordHelp,
    DisplaySelectionChordHelp,
    DisplayPressCharacterPopup,
    ViewExecutionOutput,
    AutocompleteDisplay,
    AutocompleteNext,
    AutocompletePrevious,
    AutocompleteInsert,
}

impl View for EditorCommand {
    type V = CommandView;

    open spec fn view(&self) -> CommandView {
        match self {
            EditorCommand::Quit => CommandView::Quit,
            EditorCommand::Save => CommandView::Save,
            EditorCommand::MoveCursor { movement, with_selection } =>
                CommandView::MoveCursor { movement: *movement, with_selection: *with_selection },
            EditorCommand::ToggleLockSelection => CommandView::ToggleLockSelection,
            EditorCommand::ClearSelection => CommandView::ClearSelection,
            EditorCommand::SwitchMode(m) => CommandView::SwitchMode(*m),
            EditorCommand::Edit(op) => CommandView::Edit(op@),
            EditorCommand::YankSelection => CommandView::YankSelection,
            EditorCommand::CutSelection => CommandView::CutSelection,
            EditorCommand::Paste => CommandView::Paste,
            EditorCommand::UndoLastEdit => CommandView::UndoLastEdit,
            EditorCommand::RedoLastEdit => CommandView::RedoLastEdit,
            EditorCommand::MovePromptCursorLeft => CommandView::MovePromptCursorLeft,
            EditorCommand::MovePromptCursorRight => CommandView::MovePromptCursorRight,
            EditorCommand::InsertCharPrompt { pos_x, ch } => CommandView::InsertCharPrompt { pos_x: *pos_x, ch: *ch },
            EditorCommand::DeleteCharPrompt { pos_x } => CommandView::DeleteCharPrompt { pos_x: *pos_x },
            EditorCommand::SubmitPrompt => CommandView::SubmitPrompt,
            EditorCommand::ToggleLineNumbers => CommandView::ToggleLineNumbers,
            EditorCommand::ScrollViewportUp => CommandView::ScrollViewportUp,
            EditorCommand::ScrollViewportDown => CommandView::ScrollViewportDown,
            EditorCommand::FindMatchForward => CommandView::FindMatchForward,
            EditorCommand::FindMatchBackward => CommandView::FindMatchBackward,
            EditorCommand::PromptExecutor => CommandView::PromptExecutor,
            EditorCommand::OpenCommandLine => CommandView::OpenCommandLine,
            EditorCommand::ExecuteFile(k) => CommandView::ExecuteFile(*k),
            EditorCommand::DisplayMessage(m) => CommandView::DisplayMessage(m@),
            EditorCommand::EndFileExecution(s, b) => CommandView::EndFileExecution(s@, *b),
            EditorCommand::DisplayHelp => CommandView::DisplayHelp,
            EditorCommand::DisplayChordsHelp => CommandView::DisplayChordsHelp,
            EditorCommand::DisplayExecuteChordHelp => CommandView::DisplayExecuteChordHelp,
            EditorCommand::DisplayLineChordHelp => CommandView::DisplayLineChordHelp,
            EditorCommand::DisplayViewChordHelp => CommandView::DisplayViewChordHelp,
            EditorCommand::DisplaySelectionChordHelp => CommandView::DisplaySelectionChordHelp,
            EditorCommand::DisplayPressCharacterPopup => CommandView::DisplayPressCharacterPopup,
            EditorCommand::ViewExecutionOutput => CommandView::ViewExecutionOutput,
            EditorCommand::AutocompleteDisplay => CommandView::AutocompleteDisplay,
            EditorCommand::AutocompleteNext => CommandView::AutocompleteNext,
            EditorCommand::AutocompletePrevious => CommandView::AutocompletePrevious,
            EditorCommand::AutocompleteInsert => CommandView::AutocompleteInsert,
        }
    }
}

/// The model of an optional command.
pub open spec fn opt_view(c: Option<EditorCommand>) -> Option<CommandView> {
    match c {
        Some(c) => Some(c@),
        None => None,
    }
}

} // verus!
