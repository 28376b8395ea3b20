use vstd::prelude::*;
use vstd::string::*;

verus! {

/// How the prompt edits a line.
#[derive(Debug, Clone, Copy, PartialEq, Eq, Structural)]
pub enum CursorMode {
    /// Normal cursor mode.
    Normal,
    /// Vi cursor mode.
    Vi,
    /// Emacs cursor mode.
    Emacs,
}

/// The mode that a name selects: `"vi"` and `"emacs"` select theirs, any
/// other name the normal mode.
pub open spec fn mode_named(name: Seq<char>) -> CursorMode {
    if name == "vi"@ {
        CursorMode::Vi
    } else if name == "emacs"@ {
        CursorMode::Emacs
    } else {
        CursorMode::Normal
    }
}

/// A key press as the prompt sees it.
#[derive(Debug, Clone, Copy, PartialEq, Eq, Structural)]
pub enum Key {
    /// A character key; `control` tells whether Control alone was held.
    Char { c: char, control: bool },
    /// The Enter key.
    Enter,
    /// Any other key or event.
    Other,
}

/// What the prompt does in answer to a key.
#[derive(Debug, Clone, Copy, PartialEq, Eq, Structural)]
pub enum Action {
    /// Leave the prompt.
    Quit,
    /// Hand the line typed so far to the evaluator.
    Submit,
    /// Append the character to the line and echo it.
    Insert(char),
    /// Nothing.
    Ignore,
}

/// The answer to a key: Control-D quits, other characters are typed in,
/// and Enter submits the line in the normal mode only.
pub open spec fn response(mode: CursorMode, key: Key) -> Action {
    match key {
        Key::Char { c, control } => if control && c == 'd' {
            Action::Quit
        } else {
            Action::Insert(c)
        },
        Key::Enter => if mode == CursorMode::Normal {
            Action::Submit
        } else {
            Action::Ignore
        },
        Key::Other => Action::Ignore,
    }
}

impl CursorMode {
    /// What the prompt does, in this mode, in answer to a key.
    pub fn respond(&self, key: Key) -> (r: Action)
        ensures
            r == response(*self, key),
    {
        match key {
            Key::Char { c, control } => if control && c == 'd' {
                Action::Quit
            } else {
                Action::Insert(c)
            },
            Key::Enter => match self {
                CursorMode::Normal => Action::Submit,
                _ => Action::Ignore,
            },
            Key::Other => Action::Ignore,
        }
    }

    /// Creates a new `CursorMode` from its name ("normal", "vi" or "emacs");
    /// an unknown name gives the normal mode.
    pub fn new(mode: String) -> (r: Self)
        ensures
            r == mode_named(mode@),
    {
        if mode == String::from_str("vi") {
            CursorMode::Vi
        } else if mode == String::from_str("emacs") {
            CursorMode::Emacs
        } else {
            CursorMode::Normal
        }
    }
}

} // verus!
