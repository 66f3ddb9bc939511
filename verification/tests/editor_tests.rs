use hecto::buffer::Buffer;
use hecto::command::{Command, Edit, Move, System};
use hecto::editor::{Action, Editor, SaveOutcome};
use hecto::fileinfo::FileInfo;
use hecto::input::{Event, KeyCode, KeyEvent, KeyEventKind, KeyModifiers, CONTROL, NONE};
use hecto::terminal::{Position, Size};
use std::path::PathBuf;

fn press(code: KeyCode, bits: u8) -> Event {
    Event::Key(KeyEvent { code, modifiers: KeyModifiers { bits }, kind: KeyEventKind::Press })
}

fn editor_with(text: &str) -> Editor {
    let mut editor = Editor::new(false, Size { width: 80, height: 24 });
    editor.load(Some(Buffer::load(text, FileInfo::from_path(PathBuf::from("notes.txt")), false)), "notes.txt");
    editor
}

fn message(editor: &mut Editor) -> Option<String> {
    editor.refresh_screen().and_then(|frame| frame.message.1)
}

fn texts(editor: &Editor) -> Vec<String> {
    editor.view().document().lines.iter().map(|line| line.to_string()).collect()
}

#[test]
fn new_editor_shows_help() {
    let mut editor = Editor::new(false, Size { width: 80, height: 24 });
    assert!(!editor.should_quit());
    assert_eq!(editor.terminal_size(), Size { width: 80, height: 24 });
    let frame = editor.refresh_screen().unwrap();
    assert_eq!(frame.message.0, 23);
    assert_eq!(frame.message.1.as_deref(), Some("HELP: Ctrl-S = save | Ctrl-Q = quit"));
    assert_eq!(frame.status_row, Some(22));
    assert_eq!(frame.view_rows.as_ref().map(|rows| rows.len()), Some(22));
    assert_eq!(frame.caret, Position { col: 0, row: 0 });
    let again = editor.refresh_screen().unwrap();
    assert!(again.message.1.is_none());
    assert!(again.view_rows.is_none());
}

#[test]
fn screen_without_room_draws_nothing() {
    let mut editor = Editor::new(false, Size { width: 0, height: 24 });
    assert!(editor.refresh_screen().is_none());
    let mut small = Editor::new(false, Size { width: 10, height: 2 });
    let frame = small.refresh_screen().unwrap();
    assert_eq!(frame.message.0, 1);
    assert_eq!(frame.status_row, Some(0));
    assert!(frame.view_rows.is_none());
}

#[test]
fn failed_load_reports_path() {
    let mut editor = Editor::new(false, Size { width: 80, height: 24 });
    editor.load(None, "missing.txt");
    assert_eq!(message(&mut editor).as_deref(), Some("ERR: Could not open file: missing.txt"));
}

#[test]
fn typing_changes_document() {
    let mut editor = editor_with("bc\n");
    assert_eq!(editor.evaluate_event(press(KeyCode::Char('a'), NONE)), Action::Continue);
    assert_eq!(texts(&editor), vec!["abc"]);
    assert!(editor.view().get_status().is_modified);
}

#[test]
fn released_keys_are_ignored() {
    let mut editor = editor_with("bc\n");
    let released = Event::Key(KeyEvent {
        code: KeyCode::Char('a'),
        modifiers: KeyModifiers { bits: NONE },
        kind: KeyEventKind::Release,
    });
    editor.evaluate_event(released);
    editor.evaluate_event(Event::Other);
    assert_eq!(texts(&editor), vec!["bc"]);
    assert!(!editor.view().get_status().is_modified);
}

#[test]
fn unchanged_document_quits_at_once() {
    let mut editor = editor_with("bc\n");
    editor.evaluate_event(press(KeyCode::Char('q'), CONTROL));
    assert!(editor.should_quit());
}

#[test]
fn changed_document_needs_three_quits() {
    let mut editor = editor_with("bc\n");
    editor.evaluate_event(press(KeyCode::Char('a'), NONE));
    editor.refresh_screen();
    editor.evaluate_event(press(KeyCode::Char('q'), CONTROL));
    assert!(!editor.should_quit());
    assert_eq!(
        message(&mut editor).as_deref(),
        Some("WARNING! File has unsaved changes. Press Ctrl-Q 2 times to quit.")
    );
    editor.evaluate_event(press(KeyCode::Char('q'), CONTROL));
    assert!(!editor.should_quit());
    assert_eq!(
        message(&mut editor).as_deref(),
        Some("WARNING! File has unsaved changes. Press Ctrl-Q 1 times to quit.")
    );
    editor.evaluate_event(press(KeyCode::Char('q'), CONTROL));
    assert!(editor.should_quit());
}

#[test]
fn other_command_resets_quit_count() {
    let mut editor = editor_with("bc\n");
    editor.evaluate_event(press(KeyCode::Char('a'), NONE));
    editor.evaluate_event(press(KeyCode::Char('q'), CONTROL));
    editor.evaluate_event(press(KeyCode::Char('q'), CONTROL));
    editor.refresh_screen();
    editor.evaluate_event(press(KeyCode::Right, NONE));
    assert_eq!(message(&mut editor).as_deref(), Some(""));
    editor.evaluate_event(press(KeyCode::Char('q'), CONTROL));
    assert!(!editor.should_quit());
    editor.evaluate_event(press(KeyCode::Char('q'), CONTROL));
    assert!(!editor.should_quit());
}

#[test]
fn resize_keeps_quit_count() {
    let mut editor = editor_with("bc\n");
    editor.evaluate_event(press(KeyCode::Char('a'), NONE));
    editor.evaluate_event(press(KeyCode::Char('q'), CONTROL));
    editor.evaluate_event(press(KeyCode::Char('q'), CONTROL));
    editor.evaluate_event(Event::Resize(100, 30));
    assert_eq!(editor.terminal_size(), Size { width: 100, height: 30 });
    editor.evaluate_event(press(KeyCode::Char('q'), CONTROL));
    assert!(editor.should_quit());
}

#[test]
fn save_asks_caller_to_write() {
    let mut editor = editor_with("bc\n");
    editor.evaluate_event(press(KeyCode::Char('a'), NONE));
    assert_eq!(editor.evaluate_event(press(KeyCode::Char('s'), CONTROL)), Action::Save);
    assert_eq!(editor.view().document().contents(), "abc\n");
    editor.handle_save(SaveOutcome::Written);
    assert!(!editor.view().get_status().is_modified);
    assert_eq!(message(&mut editor).as_deref(), Some("File saved successfully."));
    editor.evaluate_event(press(KeyCode::Char('q'), CONTROL));
    assert!(editor.should_quit());
}

#[test]
fn failed_save_keeps_changes() {
    let mut editor = editor_with("bc\n");
    editor.evaluate_event(press(KeyCode::Char('a'), NONE));
    editor.handle_save(SaveOutcome::Failed);
    assert!(editor.view().get_status().is_modified);
    assert_eq!(message(&mut editor).as_deref(), Some("Error writing file!"));
}

#[test]
fn save_without_file_reports_success() {
    let mut editor = Editor::new(false, Size { width: 80, height: 24 });
    editor.evaluate_event(press(KeyCode::Char('a'), NONE));
    editor.handle_save(SaveOutcome::NoFile);
    assert!(editor.view().get_status().is_modified);
    assert_eq!(message(&mut editor).as_deref(), Some("File saved successfully."));
}

#[test]
fn process_command_moves_and_edits() {
    let mut editor = editor_with("ab\ncd\n");
    editor.process_command(Command::Move(Move::Down));
    editor.process_command(Command::Move(Move::End));
    editor.process_command(Command::Edit(Edit::Insert('!')));
    assert_eq!(texts(&editor), vec!["ab", "cd!"]);
    editor.process_command(Command::Edit(Edit::DeleteBackward));
    editor.process_command(Command::Edit(Edit::InsertNewLine));
    assert_eq!(texts(&editor), vec!["ab", "cd", ""]);
    assert_eq!(editor.process_command(Command::System(System::Save)), Action::Save);
}

#[test]
fn delete_below_document_is_refused() {
    let mut editor = editor_with("ab\n");
    editor.process_command(Command::Move(Move::Down));
    assert!(!editor.allows(Command::Edit(Edit::Delete)));
    assert!(!editor.allows_event(press(KeyCode::Delete, NONE)));
    assert!(editor.allows_event(press(KeyCode::Left, NONE)));
}

#[test]
fn title_follows_file_name() {
    let mut editor = editor_with("x\n");
    let title = editor.refresh_status();
    assert_eq!(title.as_deref(), Some("notes.txt - hecto"));
    editor.set_title(title.unwrap());
    assert_eq!(editor.refresh_status(), None);
    assert_eq!(editor.title_for("other.rs").as_deref(), Some("other.rs - hecto"));
}

#[test]
fn untitled_document_title() {
    let editor = Editor::new(false, Size { width: 80, height: 24 });
    assert_eq!(editor.refresh_status().as_deref(), Some("[No Name] - hecto"));
}

#[test]
fn status_bar_text_of_editor() {
    let mut editor = editor_with("a\nb\n");
    editor.evaluate_event(press(KeyCode::Down, NONE));
    let status = editor.view().get_status();
    assert_eq!(status.position_indicator_to_string(), "1/2");
    assert_eq!(status.line_count_to_string(), "2 line");
    assert_eq!(status.filename, "notes.txt");
}

#[test]
fn save_target_names_file_and_text() {
    let mut editor = editor_with("bc\n");
    editor.evaluate_event(press(KeyCode::Char('a'), NONE));
    let (path, text) = editor.save_target().unwrap();
    assert_eq!(path, &PathBuf::from("notes.txt"));
    assert_eq!(text, "abc\n");
    let untitled = Editor::new(false, Size { width: 80, height: 24 });
    assert!(untitled.save_target().is_none());
}
