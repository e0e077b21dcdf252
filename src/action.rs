use vstd::prelude::*;

use crate::home::Tool;

verus! {

/// What the editor and the program around it ask of one another.
#[derive(Clone, Debug, PartialEq, Eq)]
pub enum Action {
    Tick,
    Render,
    RenderBuffer,
    Resize(u16, u16),
    Suspend,
    Resume,
    Quit,
    ClearScreen,
    Error(String),
    Help,
    OpenCommandPalette,
    CloseCommandPalette,
    SwitchTool(Tool),
    EditText,
    CommitText,
    SelectAll,
    SelectNone,
    Delete,
    ScrollUp,
    ScrollDown,
    ScrollLeft,
    ScrollRight,
    Export(String),
}

} // verus!
