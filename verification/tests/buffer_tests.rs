use hecto::buffer::Buffer;
use hecto::fileinfo::FileInfo;
use hecto::location::Location;
use std::path::PathBuf;

fn texts(buffer: &Buffer) -> Vec<String> {
    buffer.lines.iter().map(|line| line.to_string()).collect()
}

fn at(line_index: usize, grapheme_index: usize) -> Location {
    Location { grapheme_index, line_index }
}

#[test]
fn load_splits_lines() {
    let buffer = Buffer::load("one\ntwo\n", FileInfo::none(), false);
    assert_eq!(texts(&buffer), vec!["one", "two"]);
    assert_eq!(buffer.len(), 2);
    assert!(!buffer.is_empty());
    assert!(!buffer.dirty);
}

#[test]
fn load_drops_carriage_returns_and_keeps_last_line() {
    let buffer = Buffer::load("one\r\ntwo", FileInfo::none(), false);
    assert_eq!(texts(&buffer), vec!["one", "two"]);
}

#[test]
fn load_keeps_empty_lines() {
    let buffer = Buffer::load("\n\nx\n", FileInfo::none(), false);
    assert_eq!(texts(&buffer), vec!["", "", "x"]);
}

#[test]
fn load_of_empty_text_is_empty() {
    let buffer = Buffer::load("", FileInfo::none(), false);
    assert!(buffer.is_empty());
    assert_eq!(buffer.len(), 0);
    assert_eq!(buffer.contents(), "");
}

#[test]
fn contents_end_every_line_with_line_feed() {
    let buffer = Buffer::load("one\r\ntwo", FileInfo::none(), false);
    assert_eq!(buffer.contents(), "one\ntwo\n");
}

#[test]
fn contents_of_loaded_text_give_it_back() {
    let text = "first line\n\nthird 日本\n";
    let buffer = Buffer::load(text, FileInfo::none(), false);
    assert_eq!(buffer.contents(), text);
}

#[test]
fn load_keeps_file_info() {
    let buffer = Buffer::load("x", FileInfo::from_path(PathBuf::from("dir/notes.txt")), false);
    assert_eq!(buffer.file_info.to_string(), "notes.txt");
}

#[test]
fn new_buffer_is_empty_and_clean() {
    let buffer = Buffer::new(false);
    assert!(buffer.is_empty());
    assert!(!buffer.dirty);
    assert_eq!(buffer.file_info.to_string(), "[No Name]");
}

#[test]
fn insert_into_line() {
    let mut buffer = Buffer::load("ab\n", FileInfo::none(), false);
    buffer.insert(at(0, 1), 'x');
    assert_eq!(texts(&buffer), vec!["axb"]);
    assert!(buffer.dirty);
}

#[test]
fn insert_after_last_line_starts_a_line() {
    let mut buffer = Buffer::load("ab\n", FileInfo::none(), false);
    buffer.insert(at(1, 0), 'z');
    assert_eq!(texts(&buffer), vec!["ab", "z"]);
    assert!(buffer.dirty);
}

#[test]
fn insert_far_below_does_nothing() {
    let mut buffer = Buffer::load("ab\n", FileInfo::none(), false);
    buffer.insert(at(5, 0), 'z');
    assert_eq!(texts(&buffer), vec!["ab"]);
    assert!(!buffer.dirty);
}

#[test]
fn newline_splits_line() {
    let mut buffer = Buffer::load("abcd\nz\n", FileInfo::none(), false);
    buffer.insert_newline(at(0, 2));
    assert_eq!(texts(&buffer), vec!["ab", "cd", "z"]);
    assert!(buffer.dirty);
}

#[test]
fn newline_after_last_line_adds_empty_line() {
    let mut buffer = Buffer::load("ab\n", FileInfo::none(), false);
    buffer.insert_newline(at(1, 0));
    assert_eq!(texts(&buffer), vec!["ab", ""]);
}

#[test]
fn delete_removes_grapheme() {
    let mut buffer = Buffer::load("abc\n", FileInfo::none(), false);
    buffer.delete(at(0, 1));
    assert_eq!(texts(&buffer), vec!["ac"]);
    assert!(buffer.dirty);
}

#[test]
fn delete_at_end_of_line_joins_next_line() {
    let mut buffer = Buffer::load("ab\ncd\nef\n", FileInfo::none(), false);
    buffer.delete(at(0, 2));
    assert_eq!(texts(&buffer), vec!["abcd", "ef"]);
}

#[test]
fn delete_at_end_of_last_line_does_nothing() {
    let mut buffer = Buffer::load("ab\n", FileInfo::none(), false);
    buffer.delete(at(0, 2));
    assert_eq!(texts(&buffer), vec!["ab"]);
    assert!(!buffer.dirty);
}

#[test]
fn newline_then_delete_restores_text() {
    let mut buffer = Buffer::load("hello world\nnext\n", FileInfo::none(), false);
    buffer.insert_newline(at(0, 5));
    buffer.delete(at(0, 5));
    assert_eq!(texts(&buffer), vec!["hello world", "next"]);
}

#[test]
fn mark_saved_clears_dirty() {
    let mut buffer = Buffer::load("ab\n", FileInfo::none(), false);
    buffer.insert(at(0, 0), 'x');
    buffer.mark_saved();
    assert!(!buffer.dirty);
    assert_eq!(texts(&buffer), vec!["xab"]);
}

#[test]
fn insert_then_delete_restores_text() {
    let mut buffer = Buffer::load("hello\nnext\n", FileInfo::none(), false);
    buffer.insert(at(0, 2), 'x');
    buffer.delete(at(0, 2));
    assert_eq!(texts(&buffer), vec!["hello", "next"]);
}

#[test]
fn combining_mark_joins_previous_grapheme_so_delete_takes_the_next() {
    let mut buffer = Buffer::load("ab\n", FileInfo::none(), false);
    buffer.insert(at(0, 1), '\u{301}');
    assert_eq!(buffer.lines[0].len(), 2);
    buffer.delete(at(0, 1));
    assert_eq!(texts(&buffer), vec!["a\u{301}"]);
}

#[test]
fn load_of_contents_gives_lines_back() {
    let mut buffer = Buffer::load("one\n\nthree", FileInfo::none(), false);
    buffer.insert(at(1, 0), 'x');
    let again = Buffer::load(&buffer.contents(), FileInfo::none(), false);
    assert_eq!(texts(&again), texts(&buffer));
    assert_eq!(texts(&again), vec!["one", "x", "three"]);
}
