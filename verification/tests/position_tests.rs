use hecto::fileinfo::FileInfo;
use hecto::location::Location;
use hecto::terminal::{Position, Size};
use std::path::PathBuf;

#[test]
fn position_saturating_sub_stops_at_zero() {
    let p = Position { col: 5, row: 2 }.saturating_sub(Position { col: 3, row: 7 });
    assert_eq!(p, Position { col: 2, row: 0 });
}

#[test]
fn location_saturating_sub_stops_at_zero() {
    let a = Location { grapheme_index: 1, line_index: 9 };
    let b = Location { grapheme_index: 4, line_index: 2 };
    assert_eq!(a.saturating_sub(&b), Location { grapheme_index: 0, line_index: 7 });
}

#[test]
fn position_from_location() {
    let p = Position::from(Location { grapheme_index: 3, line_index: 8 });
    assert_eq!(p, Position { col: 3, row: 8 });
}

#[test]
fn defaults_are_zero() {
    assert_eq!(Position::default(), Position { col: 0, row: 0 });
    assert_eq!(Size::default(), Size { width: 0, height: 0 });
    assert_eq!(Location::default(), Location { grapheme_index: 0, line_index: 0 });
}

#[test]
fn file_info_names() {
    assert_eq!(FileInfo::none().to_string(), "[No Name]");
    assert_eq!(FileInfo::from_path(PathBuf::from("/tmp/x/notes.txt")).to_string(), "notes.txt");
    assert_eq!(FileInfo::from_path(PathBuf::from("/")).to_string(), "[No Name]");
}
