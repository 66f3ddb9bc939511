use hecto::command::{Command, Edit, Move, System};
use hecto::editorcommand::{Direction, EditorCommand};
use hecto::input::{
    Event, InputError, KeyCode, KeyEvent, KeyEventKind, KeyModifiers, ALT, CONTROL, NONE, SHIFT,
};
use hecto::terminal::Size;

fn key(code: KeyCode, bits: u8) -> KeyEvent {
    KeyEvent { code, modifiers: KeyModifiers { bits }, kind: KeyEventKind::Press }
}

#[test]
fn move_keys() {
    assert_eq!(Move::try_from(key(KeyCode::Up, NONE)), Ok(Move::Up));
    assert_eq!(Move::try_from(key(KeyCode::End, NONE)), Ok(Move::End));
    assert_eq!(Move::try_from(key(KeyCode::PageDown, NONE)), Ok(Move::PageDown));
    assert_eq!(
        Move::try_from(key(KeyCode::Char('a'), NONE)),
        Err(InputError::UnsupportedCode(KeyCode::Char('a')))
    );
    assert_eq!(
        Move::try_from(key(KeyCode::Up, SHIFT)),
        Err(InputError::UnsupportedKey(KeyCode::Up, KeyModifiers { bits: SHIFT }))
    );
}

#[test]
fn edit_keys() {
    assert_eq!(Edit::try_from(key(KeyCode::Char('a'), NONE)), Ok(Edit::Insert('a')));
    assert_eq!(Edit::try_from(key(KeyCode::Char('A'), SHIFT)), Ok(Edit::Insert('A')));
    assert_eq!(Edit::try_from(key(KeyCode::Tab, NONE)), Ok(Edit::Insert('\t')));
    assert_eq!(Edit::try_from(key(KeyCode::Enter, NONE)), Ok(Edit::InsertNewLine));
    assert_eq!(Edit::try_from(key(KeyCode::Backspace, NONE)), Ok(Edit::DeleteBackward));
    assert_eq!(Edit::try_from(key(KeyCode::Delete, NONE)), Ok(Edit::Delete));
    assert_eq!(
        Edit::try_from(key(KeyCode::Char('a'), ALT)),
        Err(InputError::UnsupportedKey(KeyCode::Char('a'), KeyModifiers { bits: ALT }))
    );
}

#[test]
fn system_keys() {
    assert_eq!(System::try_from(key(KeyCode::Char('q'), CONTROL)), Ok(System::Quit));
    assert_eq!(System::try_from(key(KeyCode::Char('s'), CONTROL)), Ok(System::Save));
    assert_eq!(
        System::try_from(key(KeyCode::Char('x'), CONTROL)),
        Err(InputError::UnsupportedControl(KeyCode::Char('x')))
    );
    assert_eq!(
        System::try_from(key(KeyCode::Char('q'), NONE)),
        Err(InputError::UnsupportedKey(KeyCode::Char('q'), KeyModifiers { bits: NONE }))
    );
}

#[test]
fn commands_from_events() {
    assert_eq!(
        Command::try_from(Event::Key(key(KeyCode::Char('q'), CONTROL))),
        Ok(Command::System(System::Quit))
    );
    assert_eq!(
        Command::try_from(Event::Key(key(KeyCode::Char('q'), NONE))),
        Ok(Command::Edit(Edit::Insert('q')))
    );
    assert_eq!(
        Command::try_from(Event::Key(key(KeyCode::Left, NONE))),
        Ok(Command::Move(Move::Left))
    );
    assert_eq!(
        Command::try_from(Event::Resize(80, 24)),
        Ok(Command::System(System::Resize(Size { width: 80, height: 24 })))
    );
    assert_eq!(
        Command::try_from(Event::Key(key(KeyCode::Other, NONE))),
        Err(InputError::UnsupportedKeyEvent(key(KeyCode::Other, NONE)))
    );
    assert_eq!(Command::try_from(Event::Other), Err(InputError::UnsupportedEvent(Event::Other)));
}

#[test]
fn editor_commands_from_events() {
    assert_eq!(
        EditorCommand::try_from(Event::Key(key(KeyCode::Char('q'), CONTROL))),
        Ok(EditorCommand::Quit)
    );
    assert_eq!(
        EditorCommand::try_from(Event::Key(key(KeyCode::Char('x'), SHIFT))),
        Ok(EditorCommand::Insert('x'))
    );
    assert_eq!(
        EditorCommand::try_from(Event::Key(key(KeyCode::Up, ALT))),
        Ok(EditorCommand::Move(Direction::Up))
    );
    assert_eq!(
        EditorCommand::try_from(Event::Key(key(KeyCode::Tab, CONTROL))),
        Ok(EditorCommand::Insert('\t'))
    );
    assert_eq!(EditorCommand::try_from(Event::Key(key(KeyCode::Enter, NONE))), Ok(EditorCommand::Enter));
    assert_eq!(
        EditorCommand::try_from(Event::Key(key(KeyCode::Char('x'), CONTROL))),
        Err(InputError::UnsupportedCode(KeyCode::Char('x')))
    );
    assert_eq!(
        EditorCommand::try_from(Event::Resize(10, 5)),
        Ok(EditorCommand::Resize(Size { width: 10, height: 5 }))
    );
    let released =
        KeyEvent { code: KeyCode::Char('a'), modifiers: KeyModifiers { bits: NONE }, kind: KeyEventKind::Release };
    assert_eq!(
        EditorCommand::try_from(Event::Key(released)),
        Err(InputError::UnsupportedEvent(Event::Key(released)))
    );
}
