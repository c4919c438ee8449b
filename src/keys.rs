use vstd::prelude::*;

verus! {

/// The editing mode shared by every input widget of the host.
#[derive(PartialEq, Eq, Structural, Clone, Copy, Debug)]
pub enum Mode {
    Navigation,
    Editing,
}

/// A key event delivered by the host to a widget.
#[derive(PartialEq, Eq, Structural, Clone, Copy, Debug)]
pub enum Key {
    Char(char),
    Left,
    Right,
    Backspace,
    Esc,
}

/// How the cursor is placed when editing starts.
#[derive(PartialEq, Eq, Structural, Clone, Copy, Debug)]
pub enum EditEntry {
    /// Edit where the cursor stands (`i`).
    InPlace,
    /// Jump to the start of the line first (`I`).
    AtLineStart,
    /// Step one position forward first, inserting after the cursor (`a`).
    AfterCursor,
    /// Jump to the end of the line first (`A`).
    AtLineEnd,
}

/// What a key event asks the widget to do.
#[derive(PartialEq, Eq, Structural, Clone, Copy, Debug)]
pub enum Action {
    MoveLeft,
    MoveRight,
    JumpStart,
    JumpEnd,
    WordForward,
    WordBack,
    EnterEditing(EditEntry),
    InsertChar(char),
    DeleteBack,
    /// Leave editing, whatever the widget's focus.
    Cancel,
}

/// The binding table: the action that `key` triggers in `mode`, on a widget
/// that has focus or not. Keys without a binding give `None`.
pub open spec fn action_of(mode: Mode, focused: bool, key: Key) -> Option<Action> {
    match key {
        Key::Esc => Some(Action::Cancel),
        Key::Char(c) => match mode {
            Mode::Editing => Some(Action::InsertChar(c)),
            Mode::Navigation => {
                if c == 'h' {
                    Some(Action::MoveLeft)
                } else if c == 'l' {
                    Some(Action::MoveRight)
                } else if c == '^' {
                    Some(Action::JumpStart)
                } else if c == '$' {
                    Some(Action::JumpEnd)
                } else if c == 'e' {
                    Some(Action::WordForward)
                } else if c == 'b' {
                    Some(Action::WordBack)
                } else if focused && c == 'i' {
                    Some(Action::EnterEditing(EditEntry::InPlace))
                } else if focused && c == 'I' {
                    Some(Action::EnterEditing(EditEntry::AtLineStart))
                } else if focused && c == 'a' {
                    Some(Action::EnterEditing(EditEntry::AfterCursor))
                } else if focused && c == 'A' {
                    Some(Action::EnterEditing(EditEntry::AtLineEnd))
                } else {
                    None
                }
            },
        },
        Key::Left => match mode {
            Mode::Editing => Some(Action::MoveLeft),
            Mode::Navigation => None,
        },
        Key::Right => match mode {
            Mode::Editing => Some(Action::MoveRight),
            Mode::Navigation => None,
        },
        Key::Backspace => match mode {
            Mode::Editing => Some(Action::DeleteBack),
            Mode::Navigation => None,
        },
    }
}

/// Looks `key` up in the binding table of `mode`.
pub fn action_for(mode: Mode, focused: bool, key: Key) -> (r: Option<Action>)
    ensures
        r == action_of(mode, focused, key),
{
    match key {
        Key::Esc => Some(Action::Cancel),
        Key::Char(c) => match mode {
            Mode::Editing => Some(Action::InsertChar(c)),
            Mode::Navigation => {
                if c == 'h' {
                    Some(Action::MoveLeft)
                } else if c == 'l' {
                    Some(Action::MoveRight)
                } else if c == '^' {
                    Some(Action::JumpStart)
                } else if c == '$' {
                    Some(Action::JumpEnd)
                } else if c == 'e' {
                    Some(Action::WordForward)
                } else if c == 'b' {
                    Some(Action::WordBack)
                } else if !focused {
                    None
                } else if c == 'i' {
                    Some(Action::EnterEditing(EditEntry::InPlace))
                } else if c == 'I' {
                    Some(Action::EnterEditing(EditEntry::AtLineStart))
                } else if c == 'a' {
                    Some(Action::EnterEditing(EditEntry::AfterCursor))
                } else if c == 'A' {
                    Some(Action::EnterEditing(EditEntry::AtLineEnd))
                } else {
                    None
                }
            },
        },
        Key::Left => match mode {
            Mode::Editing => Some(Action::MoveLeft),
            Mode::Navigation => None,
        },
        Key::Right => match mode {
            Mode::Editing => Some(Action::MoveRight),
            Mode::Navigation => None,
        },
        Key::Backspace => match mode {
            Mode::Editing => Some(Action::DeleteBack),
            Mode::Navigation => None,
        },
    }
}

} // verus!
