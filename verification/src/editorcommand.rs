//! The commands the view understands, and the terminal events that give them.
use crate::input::{Event, InputError, KeyCode, KeyEvent, KeyEventKind, CONTROL, NONE, SHIFT};
use crate::terminal::Size;
use vstd::prelude::*;
use vstd::std_specs::convert::TryFromSpecImpl;

verus! {

/// A direction in which the caret moves.
#[derive(Clone, Copy, Debug, PartialEq, Eq, Structural)]
pub enum Direction {
    Up,
    Down,
    Left,
    Right,
    PageUp,
    PageDown,
    Home,
    End,
}

/// A command for the editor.
#[derive(Clone, Copy, Debug, PartialEq, Eq, Structural)]
pub enum EditorCommand {
    Move(Direction),
    Insert(char),
    Resize(Size),
    Backspace,
    Delete,
    Enter,
    Quit,
}

/// The command a key press gives: Control-Q quits; a character with no
/// modifier or with Shift alone is typed; Tab types a tab; the arrow, page,
/// Home and End keys move the caret; Backspace, Delete and Enter edit; the
/// last five whatever modifiers are held.  Any other key gives no command.
pub open spec fn command_for_key_press(code: KeyCode, modifiers: u8) -> Result<
    EditorCommand,
    InputError,
> {
    match code {
        KeyCode::Char(c) => if c == 'q' && modifiers == CONTROL {
            Ok(EditorCommand::Quit)
        } else if modifiers == NONE || modifiers == SHIFT {
            Ok(EditorCommand::Insert(c))
        } else {
            Err(InputError::UnsupportedCode(code))
        },
        KeyCode::Tab => Ok(EditorCommand::Insert('\t')),
        KeyCode::Up => Ok(EditorCommand::Move(Direction::Up)),
        KeyCode::Down => Ok(EditorCommand::Move(Direction::Down)),
        KeyCode::Left => Ok(EditorCommand::Move(Direction::Left)),
        KeyCode::Right => Ok(EditorCommand::Move(Direction::Right)),
        KeyCode::PageUp => Ok(EditorCommand::Move(Direction::PageUp)),
        KeyCode::PageDown => Ok(EditorCommand::Move(Direction::PageDown)),
        KeyCode::Home => Ok(EditorCommand::Move(Direction::Home)),
        KeyCode::End => Ok(EditorCommand::Move(Direction::End)),
        KeyCode::Backspace => Ok(EditorCommand::Backspace),
        KeyCode::Delete => Ok(EditorCommand::Delete),
        KeyCode::Enter => Ok(EditorCommand::Enter),
        KeyCode::Other => Err(InputError::UnsupportedCode(code)),
    }
}

/// The command an event gives: that of a key press, a resize to the new
/// terminal size; released or repeated keys and other events give none.
pub open spec fn editor_command_for_event(event: Event) -> Result<EditorCommand, InputError> {
    match event {
        Event::Key(key) => if key.kind == KeyEventKind::Press {
            command_for_key_press(key.code, key.modifiers.bits)
        } else {
            Err(InputError::UnsupportedEvent(event))
        },
        Event::Resize(width, height) => Ok(
            EditorCommand::Resize(Size { width: width as usize, height: height as usize }),
        ),
        Event::Other => Err(InputError::UnsupportedEvent(event)),
    }
}

/// A pressed navigation key moves the caret its own way, whatever modifiers
/// are held: the arrows one step in their direction, Page Up and Page Down a
/// page, Home to the start and End to the end of the line.
pub proof fn law_navigation_keys_give_moves(key: KeyEvent)
    requires
        key.kind == KeyEventKind::Press,
    ensures
        key.code == KeyCode::Up ==> editor_command_for_event(Event::Key(key)) == Ok::<
            EditorCommand,
            InputError,
        >(EditorCommand::Move(Direction::Up)),
        key.code == KeyCode::Down ==> editor_command_for_event(Event::Key(key)) == Ok::<
            EditorCommand,
            InputError,
        >(EditorCommand::Move(Direction::Down)),
        key.code == KeyCode::Left ==> editor_command_for_event(Event::Key(key)) == Ok::<
            EditorCommand,
            InputError,
        >(EditorCommand::Move(Direction::Left)),
        key.code == KeyCode::Right ==> editor_command_for_event(Event::Key(key)) == Ok::<
            EditorCommand,
            InputError,
        >(EditorCommand::Move(Direction::Right)),
        key.code == KeyCode::PageUp ==> editor_command_for_event(Event::Key(key)) == Ok::<
            EditorCommand,
            InputError,
        >(EditorCommand::Move(Direction::PageUp)),
        key.code == KeyCode::PageDown ==> editor_command_for_event(Event::Key(key)) == Ok::<
            EditorCommand,
            InputError,
        >(EditorCommand::Move(Direction::PageDown)),
        key.code == KeyCode::Home ==> editor_command_for_event(Event::Key(key)) == Ok::<
            EditorCommand,
            InputError,
        >(EditorCommand::Move(Direction::Home)),
        key.code == KeyCode::End ==> editor_command_for_event(Event::Key(key)) == Ok::<
            EditorCommand,
            InputError,
        >(EditorCommand::Move(Direction::End)),
{
}

impl TryFrom<Event> for EditorCommand {
    type Error = InputError;

    fn try_from(event: Event) -> (r: Result<Self, Self::Error>) {
        match event {
            Event::Key(KeyEvent { code, modifiers, kind: KeyEventKind::Press }) => {
                let m = modifiers.bits;
                match code {
                    KeyCode::Char(c) => {
                        if c == 'q' && m == CONTROL {
                            Ok(Self::Quit)
                        } else if m == NONE || m == SHIFT {
                            Ok(Self::Insert(c))
                        } else {
                            Err(InputError::UnsupportedCode(code))
                        }
                    },
                    KeyCode::Tab => Ok(Self::Insert('\t')),
                    KeyCode::Up => Ok(Self::Move(Direction::Up)),
                    KeyCode::Down => Ok(Self::Move(Direction::Down)),
                    KeyCode::Left => Ok(Self::Move(Direction::Left)),
                    KeyCode::Right => Ok(Self::Move(Direction::Right)),
                    KeyCode::PageUp => Ok(Self::Move(Direction::PageUp)),
                    KeyCode::PageDown => Ok(Self::Move(Direction::PageDown)),
                    KeyCode::Home => Ok(Self::Move(Direction::Home)),
                    KeyCode::End => Ok(Self::Move(Direction::End)),
                    KeyCode::Backspace => Ok(EditorCommand::Backspace),
                    KeyCode::Delete => Ok(EditorCommand::Delete),
                    KeyCode::Enter => Ok(EditorCommand::Enter),
                    KeyCode::Other => Err(InputError::UnsupportedCode(code)),
                }
            },
            Event::Resize(width, height) => Ok(
                Self::Resize(Size { width: width as usize, height: height as usize }),
            ),
            _ => Err(InputError::UnsupportedEvent(event)),
        }
    }
}

impl TryFromSpecImpl<Event> for EditorCommand {
    open spec fn obeys_try_from_spec() -> bool {
        true
    }

    open spec fn try_from_spec(event: Event) -> Result<Self, Self::Error> {
        editor_command_for_event(event)
    }
}

} // verus!
