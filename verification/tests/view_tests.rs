use hecto::buffer::Buffer;
use hecto::editorcommand::{Direction, EditorCommand};
use hecto::fileinfo::FileInfo;
use hecto::terminal::{Position, Size};
use hecto::view::View;

fn view_of(text: &str, width: usize, height: usize) -> View {
    let mut view = View::new(false);
    view.load(Buffer::load(text, FileInfo::none(), false));
    view.resize(Size { width, height });
    view
}

fn texts(view: &View) -> Vec<String> {
    view.document().lines.iter().map(|line| line.to_string()).collect()
}

fn go(view: &mut View, direction: Direction) {
    view.handle_command(EditorCommand::Move(direction));
}

#[test]
fn caret_moves_right_and_down() {
    let mut view = view_of("hello\nworld\n", 80, 10);
    go(&mut view, Direction::Right);
    go(&mut view, Direction::Right);
    assert_eq!(view.caret_position(), Position { col: 2, row: 0 });
    go(&mut view, Direction::Down);
    assert_eq!(view.caret_position(), Position { col: 2, row: 1 });
    assert_eq!(view.get_status().current_line_index, 1);
}

#[test]
fn caret_keeps_target_column_across_short_lines() {
    let mut view = view_of("hello\nab\nworld\n", 80, 10);
    go(&mut view, Direction::End);
    assert_eq!(view.caret_position(), Position { col: 5, row: 0 });
    go(&mut view, Direction::Down);
    assert_eq!(view.caret_position(), Position { col: 2, row: 1 });
    go(&mut view, Direction::Down);
    assert_eq!(view.caret_position(), Position { col: 5, row: 2 });
}

#[test]
fn right_at_end_of_line_goes_to_next_line() {
    let mut view = view_of("ab\ncd\n", 80, 10);
    go(&mut view, Direction::End);
    go(&mut view, Direction::Right);
    assert_eq!(view.caret_position(), Position { col: 0, row: 1 });
    go(&mut view, Direction::Left);
    assert_eq!(view.caret_position(), Position { col: 2, row: 0 });
}

#[test]
fn left_at_start_of_text_stays() {
    let mut view = view_of("ab\n", 80, 10);
    go(&mut view, Direction::Left);
    assert_eq!(view.caret_position(), Position { col: 0, row: 0 });
    go(&mut view, Direction::Up);
    assert_eq!(view.caret_position(), Position { col: 0, row: 0 });
}

#[test]
fn caret_can_reach_the_line_after_the_last() {
    let mut view = view_of("ab\n", 80, 10);
    go(&mut view, Direction::Down);
    go(&mut view, Direction::Down);
    go(&mut view, Direction::Down);
    assert_eq!(view.caret_position(), Position { col: 0, row: 1 });
}

#[test]
fn caret_column_counts_wide_characters() {
    let mut view = view_of("日本\n", 80, 10);
    go(&mut view, Direction::Right);
    assert_eq!(view.caret_position(), Position { col: 2, row: 0 });
}

#[test]
fn page_down_moves_by_height_minus_one() {
    let text: String = (0..20).map(|i| format!("line {i}\n")).collect();
    let mut view = view_of(&text, 80, 5);
    go(&mut view, Direction::PageDown);
    assert_eq!(view.get_status().current_line_index, 4);
    go(&mut view, Direction::PageDown);
    assert_eq!(view.get_status().current_line_index, 8);
    assert_eq!(view.caret_position(), Position { col: 0, row: 4 });
    go(&mut view, Direction::PageUp);
    assert_eq!(view.get_status().current_line_index, 4);
}

#[test]
fn view_scrolls_to_keep_caret_visible() {
    let text: String = (0..20).map(|i| format!("{i}\n")).collect();
    let mut view = view_of(&text, 80, 3);
    for _ in 0..5 {
        go(&mut view, Direction::Down);
    }
    assert_eq!(view.caret_position(), Position { col: 0, row: 2 });
    let rows = view.draw_rows(0);
    assert_eq!(rows, vec!["3", "4", "5"]);
}

#[test]
fn view_scrolls_horizontally() {
    let mut view = view_of("abcdefghij\n", 4, 3);
    go(&mut view, Direction::End);
    assert_eq!(view.caret_position(), Position { col: 3, row: 0 });
    let rows = view.draw_rows(0);
    assert_eq!(rows[0], "hij");
}

#[test]
fn typing_inserts_and_moves_caret() {
    let mut view = view_of("ac\n", 80, 10);
    go(&mut view, Direction::Right);
    view.handle_command(EditorCommand::Insert('b'));
    assert_eq!(texts(&view), vec!["abc"]);
    assert_eq!(view.caret_position(), Position { col: 2, row: 0 });
    assert!(view.get_status().is_modified);
}

#[test]
fn typing_into_empty_document_starts_a_line() {
    let mut view = view_of("", 80, 10);
    view.handle_command(EditorCommand::Insert('x'));
    assert_eq!(texts(&view), vec!["x"]);
    assert_eq!(view.caret_position(), Position { col: 1, row: 0 });
}

#[test]
fn combining_mark_does_not_move_caret() {
    let mut view = view_of("ab\n", 80, 10);
    go(&mut view, Direction::Right);
    view.handle_command(EditorCommand::Insert('\u{301}'));
    assert_eq!(texts(&view), vec!["a\u{301}b"]);
    assert_eq!(view.caret_position(), Position { col: 1, row: 0 });
}

#[test]
fn enter_splits_line_and_moves_to_next() {
    let mut view = view_of("abcd\n", 80, 10);
    go(&mut view, Direction::Right);
    go(&mut view, Direction::Right);
    view.handle_command(EditorCommand::Enter);
    assert_eq!(texts(&view), vec!["ab", "cd"]);
    assert_eq!(view.caret_position(), Position { col: 0, row: 1 });
}

#[test]
fn enter_then_backspace_restores_text() {
    let mut view = view_of("abcd\n", 80, 10);
    go(&mut view, Direction::Right);
    view.handle_command(EditorCommand::Enter);
    view.handle_command(EditorCommand::Backspace);
    assert_eq!(texts(&view), vec!["abcd"]);
    assert_eq!(view.caret_position(), Position { col: 1, row: 0 });
}

#[test]
fn backspace_at_start_does_nothing() {
    let mut view = view_of("ab\n", 80, 10);
    view.handle_command(EditorCommand::Backspace);
    assert_eq!(texts(&view), vec!["ab"]);
    assert!(!view.get_status().is_modified);
}

#[test]
fn delete_removes_under_caret_and_joins_lines() {
    let mut view = view_of("ab\ncd\n", 80, 10);
    view.handle_command(EditorCommand::Delete);
    assert_eq!(texts(&view), vec!["b", "cd"]);
    go(&mut view, Direction::End);
    view.handle_command(EditorCommand::Delete);
    assert_eq!(texts(&view), vec!["bcd"]);
}

#[test]
fn delete_past_last_line_is_not_allowed() {
    let mut view = view_of("ab\n", 80, 10);
    go(&mut view, Direction::Down);
    assert!(!view.allows(EditorCommand::Delete));
    assert!(view.allows(EditorCommand::Backspace));
}

#[test]
fn status_reports_document() {
    let mut view = view_of("a\nb\nc\n", 80, 10);
    go(&mut view, Direction::Down);
    let status = view.get_status();
    assert_eq!(status.total_lines, 3);
    assert_eq!(status.current_line_index, 1);
    assert!(!status.is_modified);
    assert_eq!(status.filename, "[No Name]");
}

#[test]
fn save_clears_modified_only_when_written() {
    let mut view = view_of("a\n", 80, 10);
    view.handle_command(EditorCommand::Insert('x'));
    view.save(false);
    assert!(view.get_status().is_modified);
    view.save(true);
    assert!(!view.get_status().is_modified);
}

#[test]
fn welcome_message_is_centered() {
    let message = View::build_welcome_message(40);
    assert_eq!(message, "~     hecto editor -- version 0.1.0     ");
    assert_eq!(View::build_welcome_message(0), "");
    assert_eq!(View::build_welcome_message(29), "~");
    assert_eq!(View::build_welcome_message(30), "~hecto editor -- version 0.1.0");
}

#[test]
fn empty_document_shows_welcome_at_top_third() {
    let view = view_of("", 40, 6);
    let rows = view.draw_rows(0);
    assert_eq!(rows.len(), 6);
    assert_eq!(rows[0], "~");
    assert_eq!(rows[2], "~     hecto editor -- version 0.1.0     ");
    assert_eq!(rows[5], "~");
}

#[test]
fn rows_past_the_document_show_tildes() {
    let view = view_of("one\n", 20, 3);
    assert_eq!(view.draw_rows(0), vec!["one", "~", "~"]);
}

#[test]
fn resize_asks_for_redraw() {
    let mut view = view_of("one\n", 20, 3);
    view.mark_redraw(false);
    assert!(!view.needs_redraw());
    view.resize(Size { width: 10, height: 2 });
    assert!(view.needs_redraw());
}

#[test]
fn resize_scrolls_caret_into_view() {
    let text: String = (0..10).map(|i| format!("{i}\n")).collect();
    let mut view = view_of(&text, 80, 10);
    for _ in 0..8 {
        go(&mut view, Direction::Down);
    }
    assert_eq!(view.caret_position(), Position { col: 0, row: 8 });
    view.resize(Size { width: 80, height: 3 });
    assert_eq!(view.caret_position(), Position { col: 0, row: 2 });
}

#[test]
fn vertical_moves_snap_caret_to_line_end() {
    let mut view = view_of("long line\nab\n", 80, 10);
    go(&mut view, Direction::End);
    go(&mut view, Direction::Down);
    assert_eq!(view.caret_position(), Position { col: 2, row: 1 });
    go(&mut view, Direction::Down);
    assert_eq!(view.caret_position(), Position { col: 0, row: 2 });
    go(&mut view, Direction::Up);
    go(&mut view, Direction::Up);
    assert_eq!(view.caret_position(), Position { col: 9, row: 0 });
}

#[test]
fn load_keeps_caret_even_below_new_document() {
    let mut view = view_of("a\nb\nc\nd\ne\n", 80, 10);
    for _ in 0..4 {
        go(&mut view, Direction::Down);
    }
    view.load(Buffer::load("x\n", FileInfo::none(), false));
    assert_eq!(view.get_status().current_line_index, 4);
    assert_eq!(view.get_status().total_lines, 1);
    assert_eq!(view.caret_position(), Position { col: 0, row: 4 });
    assert!(view.needs_redraw());
    assert!(!view.allows(EditorCommand::Delete));
    assert!(!view.allows(EditorCommand::Backspace));
    go(&mut view, Direction::Up);
    assert_eq!(view.caret_position(), Position { col: 0, row: 3 });
    go(&mut view, Direction::Down);
    assert_eq!(view.get_status().current_line_index, 1);
}

#[test]
fn backspace_allowed_when_step_left_lands_on_a_line() {
    let mut view = view_of("ab\n", 80, 10);
    go(&mut view, Direction::Down);
    assert!(view.allows(EditorCommand::Backspace));
    view.handle_command(EditorCommand::Backspace);
    assert_eq!(texts(&view), vec!["ab"]);
    assert_eq!(view.caret_position(), Position { col: 2, row: 0 });
}

#[test]
fn insert_then_backspace_restores_text_and_caret() {
    let mut view = view_of("hello\nworld\n", 80, 10);
    go(&mut view, Direction::Down);
    go(&mut view, Direction::Right);
    go(&mut view, Direction::Right);
    view.handle_command(EditorCommand::Insert('x'));
    assert_eq!(texts(&view), vec!["hello", "woxrld"]);
    view.handle_command(EditorCommand::Backspace);
    assert_eq!(texts(&view), vec!["hello", "world"]);
    assert_eq!(view.caret_position(), Position { col: 2, row: 1 });
}
