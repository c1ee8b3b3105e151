//! From terminal events to commands: what a key means in each mode.

use crate::primatives::Root;
use vstd::prelude::*;

verus! {

/// The mode of the editor: how it reads the keys.
#[derive(Clone, Copy, Debug, PartialEq, Eq, Structural, Default)]
pub enum State {
    #[default]
    Normal,
    Insert,
    Travel,
    ShutDown,
}

/// A key, as far as the editor tells keys apart.
#[derive(Clone, Copy, Debug, PartialEq, Eq, Structural)]
pub enum KeyCode {
    Backspace,
    Enter,
    Delete,
    Esc,
    Char(char),
    Other,
}

/// A modifier key that is held.
#[derive(Clone, Copy, Debug, PartialEq, Eq, Structural)]
pub enum ModifierKeyCode {
    LeftShift,
    LeftControl,
    LeftAlt,
    LeftSuper,
    LeftHyper,
    LeftMeta,
    RightShift,
    RightControl,
    RightAlt,
    RightSuper,
    RightHyper,
    RightMeta,
    IsoLevel3Shift,
    IsoLevel5Shift,
}

/// A key that was pressed.
#[derive(Clone, Copy, Debug, PartialEq, Eq, Structural)]
pub struct KeyEvent {
    pub code: KeyCode,
}

/// What the terminal reports.
#[derive(Clone, Copy, Debug, PartialEq, Eq, Structural)]
pub enum Event {
    FocusGained,
    FocusLost,
    Key(KeyEvent),
    /// The screen now has so many columns and rows.
    Resize(u16, u16),
    Other,
}

/// What the user asks for.
#[derive(Clone, Copy, Debug, PartialEq, Eq, Structural)]
pub enum Command {
    Insert(char),
    NormalMode,
    InsertMode,
    TravelMode,
    ToFirstChild,
    ToParent,
    ToLeftSibling,
    ToRightSibling,
    Reset,
    ShutDown,
    PrevChar,
    PrevLine,
    NextLine,
    NextChar,
    ToLastChild,
    ToMiddleChild,
    Quit,
    Backspace,
    Delete,
    NewLine,
    NewLineBefore,
}

/// Whether a control key is among the modifier keys held.
pub open spec fn holds_ctrl(mod_keys: Seq<ModifierKeyCode>) -> bool {
    exists|i: int|
        0 <= i < mod_keys.len() && (#[trigger] mod_keys[i] == ModifierKeyCode::LeftControl
            || mod_keys[i] == ModifierKeyCode::RightControl)
}

/// What an event means in normal mode.
pub open spec fn normal_command(input: Event) -> Option<Command> {
    match input {
        Event::Key(key) => match key.code {
            KeyCode::Esc => Some(Command::ShutDown),
            KeyCode::Char(c) => if c == 'i' {
                Some(Command::InsertMode)
            } else if c == 't' {
                Some(Command::TravelMode)
            } else if c == 'h' {
                Some(Command::PrevChar)
            } else if c == 'j' {
                Some(Command::PrevLine)
            } else if c == 'k' {
                Some(Command::NextLine)
            } else if c == 'l' {
                Some(Command::NextChar)
            } else if c == 'q' {
                Some(Command::Quit)
            } else {
                None
            },
            _ => None,
        },
        _ => None,
    }
}

/// What an event means in insert mode, with or without a control key
/// held.
pub open spec fn insert_command(ctrl: bool, input: Event) -> Option<Command> {
    match input {
        Event::Key(key) => match key.code {
            KeyCode::Esc => Some(Command::NormalMode),
            KeyCode::Backspace => Some(Command::Backspace),
            KeyCode::Delete => Some(Command::Delete),
            KeyCode::Enter => if ctrl {
                Some(Command::NewLineBefore)
            } else {
                Some(Command::NewLine)
            },
            KeyCode::Char(c) => if ctrl && c == 't' {
                Some(Command::TravelMode)
            } else if ctrl && c == 'h' {
                Some(Command::PrevChar)
            } else if ctrl && c == 'j' {
                Some(Command::PrevLine)
            } else if ctrl && c == 'k' {
                Some(Command::NextLine)
            } else if ctrl && c == 'l' {
                Some(Command::NextChar)
            } else {
                Some(Command::Insert(c))
            },
            _ => None,
        },
        _ => None,
    }
}

/// What an event means in travel mode, with or without a control key
/// held.
pub open spec fn travel_command(ctrl: bool, input: Event) -> Option<Command> {
    match input {
        Event::Key(key) => match key.code {
            KeyCode::Esc => Some(Command::NormalMode),
            KeyCode::Char(c) => if ctrl && c == 'i' {
                Some(Command::ToFirstChild)
            } else if c == 'k' {
                Some(Command::ToParent)
            } else if c == 'h' {
                Some(Command::ToLeftSibling)
            } else if c == 'l' {
                Some(Command::ToRightSibling)
            } else if c == 'j' {
                Some(Command::ToFirstChild)
            } else if c == 'a' {
                Some(Command::ToLastChild)
            } else if c == 'm' {
                Some(Command::ToMiddleChild)
            } else {
                None
            },
            _ => None,
        },
        _ => None,
    }
}

/// What an event means in a mode. Nothing is read once the editor shuts
/// down.
pub open spec fn command_of(state: State, ctrl: bool, input: Event) -> Option<Command> {
    match state {
        State::Normal => normal_command(input),
        State::Insert => insert_command(ctrl, input),
        State::Travel => travel_command(ctrl, input),
        State::ShutDown => None,
    }
}

/// Whether a control key is among the modifier keys held.
pub fn ctrl_held(mod_keys: &Vec<ModifierKeyCode>) -> (b: bool)
    ensures
        b == holds_ctrl(mod_keys@),
{
    let mut i: usize = 0;
    while i < mod_keys.len()
        invariant
            i <= mod_keys.len(),
            forall|k: int|
                0 <= k < i ==> !(#[trigger] mod_keys@[k] == ModifierKeyCode::LeftControl
                    || mod_keys@[k] == ModifierKeyCode::RightControl),
        decreases mod_keys.len() - i,
    {
        match mod_keys[i] {
            ModifierKeyCode::LeftControl => {
                return true;
            },
            ModifierKeyCode::RightControl => {
                return true;
            },
            _ => {},
        }
        i += 1;
    }
    false
}

/// Reads an event in normal mode.
pub fn handle_normal(_mod_keys: &mut Vec<ModifierKeyCode>, input: Event) -> (r: Option<Command>)
    ensures
        r == normal_command(input),
        *final(_mod_keys) == *old(_mod_keys),
{
    match input {
        Event::Key(key) => match key.code {
            KeyCode::Esc => Some(Command::ShutDown),
            KeyCode::Char('i') => Some(Command::InsertMode),
            KeyCode::Char('t') => Some(Command::TravelMode),
            KeyCode::Char('h') => Some(Command::PrevChar),
            KeyCode::Char('j') => Some(Command::PrevLine),
            KeyCode::Char('k') => Some(Command::NextLine),
            KeyCode::Char('l') => Some(Command::NextChar),
            KeyCode::Char('q') => Some(Command::Quit),
            _ => None,
        },
        _ => None,
    }
}

/// Reads an event in insert mode.
pub fn handle_insert(mod_keys: &mut Vec<ModifierKeyCode>, input: Event) -> (r: Option<Command>)
    ensures
        r == insert_command(holds_ctrl(old(mod_keys)@), input),
        *final(mod_keys) == *old(mod_keys),
{
    let ctrl: bool = ctrl_held(mod_keys);
    match input {
        Event::Key(key) => match key.code {
            KeyCode::Esc => Some(Command::NormalMode),
            KeyCode::Backspace => Some(Command::Backspace),
            KeyCode::Delete => Some(Command::Delete),
            KeyCode::Enter => if ctrl {
                Some(Command::NewLineBefore)
            } else {
                Some(Command::NewLine)
            },
            KeyCode::Char(ch) => {
                if ctrl && ch == 't' {
                    Some(Command::TravelMode)
                } else if ctrl && ch == 'h' {
                    Some(Command::PrevChar)
                } else if ctrl && ch == 'j' {
                    Some(Command::PrevLine)
                } else if ctrl && ch == 'k' {
                    Some(Command::NextLine)
                } else if ctrl && ch == 'l' {
                    Some(Command::NextChar)
                } else {
                    Some(Command::Insert(ch))
                }
            },
            _ => None,
        },
        _ => None,
    }
}

/// Reads an event in travel mode.
pub fn handle_travel(mod_keys: &mut Vec<ModifierKeyCode>, input: Event) -> (r: Option<Command>)
    ensures
        r == travel_command(holds_ctrl(old(mod_keys)@), input),
        *final(mod_keys) == *old(mod_keys),
{
    let ctrl: bool = ctrl_held(mod_keys);
    match input {
        Event::Key(key) => match key.code {
            KeyCode::Esc => Some(Command::NormalMode),
            KeyCode::Char(ch) => {
                if ctrl && ch == 'i' {
                    Some(Command::ToFirstChild)
                } else if ch == 'k' {
                    Some(Command::ToParent)
                } else if ch == 'h' {
                    Some(Command::ToLeftSibling)
                } else if ch == 'l' {
                    Some(Command::ToRightSibling)
                } else if ch == 'j' {
                    Some(Command::ToFirstChild)
                } else if ch == 'a' {
                    Some(Command::ToLastChild)
                } else if ch == 'm' {
                    Some(Command::ToMiddleChild)
                } else {
                    None
                }
            },
            _ => None,
        },
        _ => None,
    }
}

/// One round of input: a report of the screen's size gives the root the
/// whole of the screen, and the event is read as the mode has it.
pub fn on_event(
    state: State,
    root: &mut Root,
    mod_keys: &mut Vec<ModifierKeyCode>,
    input: Event,
) -> (r: Option<Command>)
    ensures
        r == command_of(state, holds_ctrl(old(mod_keys)@), input),
        *final(mod_keys) == *old(mod_keys),
        final(root)@ == match input {
            Event::Resize(cols, rows) => crate::primatives::RootModel {
                area: crate::geometry::Rect { x: 0, y: 0, width: cols, height: rows },
                ..old(root)@
            },
            _ => old(root)@,
        },
{
    match input {
        Event::Resize(cols, rows) => {
            root.resize(cols, rows);
        },
        _ => {},
    }
    match state {
        State::Normal => handle_normal(mod_keys, input),
        State::Insert => handle_insert(mod_keys, input),
        State::Travel => handle_travel(mod_keys, input),
        State::ShutDown => None,
    }
}

} // verus!
