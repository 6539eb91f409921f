//! The command resolver: a pure two-level dispatch from a key press (code
//! plus modifier) to a semantic editing command. Unrecognized combinations
//! resolve to no command at all and are silently ignored by the caller.

use vstd::prelude::*;

verus! {

/// A cursor movement direction.
#[derive(Clone, Copy, PartialEq, Eq, Debug)]
pub enum Move {
    Up,
    Down,
    Left,
    Right,
}

/// One resolved user intent, consumed immediately by the edit engine.
#[derive(Clone, Copy, PartialEq, Eq, Debug)]
pub enum Command {
    Insert(char),
    Move(Move),
    NewLine,
    BackSpace,
    Save,
    Exit,
}

/// The key itself, as the editor cares about it.
#[derive(Clone, Copy, PartialEq, Eq, Debug)]
pub enum KeyCode {
    Char(char),
    Up,
    Down,
    Left,
    Right,
    Enter,
    Backspace,
    Other,
}

/// The modifier set held while the key was pressed.
#[derive(Clone, Copy, PartialEq, Eq, Debug)]
pub enum KeyModifier {
    Plain,
    Control,
    Other,
}

/// A raw key event: code plus modifier set.
#[derive(Clone, Copy, PartialEq, Eq, Debug)]
pub struct KeyPress {
    pub code: KeyCode,
    pub modifier: KeyModifier,
}

/// The command an unmodified key resolves to.
pub open spec fn unmodified_command_of(code: KeyCode) -> Option<Command> {
    match code {
        KeyCode::Char(c) => Some(Command::Insert(c)),
        KeyCode::Up => Some(Command::Move(Move::Up)),
        KeyCode::Down => Some(Command::Move(Move::Down)),
        KeyCode::Left => Some(Command::Move(Move::Left)),
        KeyCode::Right => Some(Command::Move(Move::Right)),
        KeyCode::Enter => Some(Command::NewLine),
        KeyCode::Backspace => Some(Command::BackSpace),
        KeyCode::Other => None,
    }
}

/// The command a control-modified key resolves to.
pub open spec fn ctrl_command_of(code: KeyCode) -> Option<Command> {
    match code {
        KeyCode::Char(c) => if c == 'q' {
            Some(Command::Exit)
        } else if c == 's' {
            Some(Command::Save)
        } else {
            None
        },
        _ => None,
    }
}

/// What a key press resolves to: first by modifier set, then by key code.
pub open spec fn command_of(k: KeyPress) -> Option<Command> {
    match k.modifier {
        KeyModifier::Plain => unmodified_command_of(k.code),
        KeyModifier::Control => ctrl_command_of(k.code),
        KeyModifier::Other => None,
    }
}

/// Resolves a key press with no modifiers held.
pub fn process_unmodified(k: &KeyPress) -> (r: Option<Command>)
    ensures
        r == unmodified_command_of(k.code),
{
    match k.code {
        KeyCode::Char(c) => Some(Command::Insert(c)),
        KeyCode::Up => Some(Command::Move(Move::Up)),
        KeyCode::Down => Some(Command::Move(Move::Down)),
        KeyCode::Left => Some(Command::Move(Move::Left)),
        KeyCode::Right => Some(Command::Move(Move::Right)),
        KeyCode::Enter => Some(Command::NewLine),
        KeyCode::Backspace => Some(Command::BackSpace),
        KeyCode::Other => None,
    }
}

/// Resolves a key press with the control modifier held.
pub fn process_ctrl(k: &KeyPress) -> (r: Option<Command>)
    ensures
        r == ctrl_command_of(k.code),
{
    match k.code {
        KeyCode::Char(c) => {
            if c == 'q' {
                Some(Command::Exit)
            } else if c == 's' {
                Some(Command::Save)
            } else {
                None
            }
        },
        _ => None,
    }
}

/// Resolves a raw key press to a semantic command, or to none when the
/// combination is not recognized.
pub fn process_keypress(k: &KeyPress) -> (r: Option<Command>)
    ensures
        r == command_of(*k),
{
    match k.modifier {
        KeyModifier::Plain => process_unmodified(k),
        KeyModifier::Control => process_ctrl(k),
        KeyModifier::Other => None,
    }
}

} // verus!
