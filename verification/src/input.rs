//! The keyboard: which key asks for which command.

use vstd::prelude::*;

verus! {

/// A key, as far as the panel tells keys apart.
#[derive(Clone, Copy, Debug, PartialEq, Eq, Structural)]
pub enum Key {
    Char(char),
    Up,
    Down,
    Left,
    Right,
    Tab,
    Other,
}

/// What happened to a key.
#[derive(Clone, Copy, Debug, PartialEq, Eq, Structural)]
pub enum KeyKind {
    Press,
    Repeat,
    Release,
}

/// What the operator can ask for.
#[derive(Clone, Copy, Debug, PartialEq, Eq, Structural)]
pub enum Command {
    PreviousEffect,
    NextEffect,
    NextParameter,
    Decrease,
    Increase,
    ProcessAndPlay,
    Reset,
    StopPlayback,
    Quit,
}

/// The command that a key stands for, if it stands for one.
pub open spec fn command_of(key: Key) -> Option<Command> {
    match key {
        Key::Up => Some(Command::PreviousEffect),
        Key::Down => Some(Command::NextEffect),
        Key::Tab => Some(Command::NextParameter),
        Key::Left => Some(Command::Decrease),
        Key::Right => Some(Command::Increase),
        Key::Char(c) => {
            if c == 'q' || c == 'Q' {
                Some(Command::Quit)
            } else if c == 'k' {
                Some(Command::PreviousEffect)
            } else if c == 'j' {
                Some(Command::NextEffect)
            } else if c == 'h' {
                Some(Command::Decrease)
            } else if c == 'l' {
                Some(Command::Increase)
            } else if c == 'p' || c == 'P' {
                Some(Command::ProcessAndPlay)
            } else if c == 'r' || c == 'R' {
                Some(Command::Reset)
            } else if c == 's' || c == 'S' {
                Some(Command::StopPlayback)
            } else {
                None
            }
        },
        Key::Other => None,
    }
}

/// The command that a key event asks for. Only a press asks for anything.
pub open spec fn command_of_event(key: Key, kind: KeyKind) -> Option<Command> {
    if kind is Press {
        command_of(key)
    } else {
        None
    }
}

/// The command that a key event asks for, if any.
pub fn command_for(key: Key, kind: KeyKind) -> (command: Option<Command>)
    ensures
        command == command_of_event(key, kind),
{
    match kind {
        KeyKind::Press => {},
        _ => {
            return None;
        },
    }
    match key {
        Key::Up => Some(Command::PreviousEffect),
        Key::Down => Some(Command::NextEffect),
        Key::Tab => Some(Command::NextParameter),
        Key::Left => Some(Command::Decrease),
        Key::Right => Some(Command::Increase),
        Key::Char(c) => {
            if c == 'q' || c == 'Q' {
                Some(Command::Quit)
            } else if c == 'k' {
                Some(Command::PreviousEffect)
            } else if c == 'j' {
                Some(Command::NextEffect)
            } else if c == 'h' {
                Some(Command::Decrease)
            } else if c == 'l' {
                Some(Command::Increase)
            } else if c == 'p' || c == 'P' {
                Some(Command::ProcessAndPlay)
            } else if c == 'r' || c == 'R' {
                Some(Command::Reset)
            } else if c == 's' || c == 'S' {
                Some(Command::StopPlayback)
            } else {
                None
            }
        },
        Key::Other => None,
    }
}

} // verus!
