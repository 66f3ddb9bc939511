use hecto::line::{grapheme_width, Line};

#[test]
fn line_counts_graphemes_not_chars() {
    let line = Line::from_text("ae\u{301}b", false);
    assert_eq!(line.len(), 3);
    assert_eq!(line.grapheme(1), "e\u{301}");
    assert_eq!(line.to_string(), "ae\u{301}b");
}

#[test]
fn line_width_counts_wide_graphemes_twice() {
    let line = Line::from_text("日本語", false);
    assert_eq!(line.len(), 3);
    assert_eq!(line.width(), 6);
    assert_eq!(line.width_until(0), 0);
    assert_eq!(line.width_until(1), 2);
    assert_eq!(line.width_until(3), 6);
    assert_eq!(line.width_until(10), 6);
}

#[test]
fn line_tab_takes_one_column() {
    let line = Line::from_text("a\tb", false);
    assert_eq!(line.len(), 3);
    assert_eq!(line.width(), 3);
}

#[test]
fn line_empty_has_no_width() {
    let line = Line::empty(false);
    assert_eq!(line.len(), 0);
    assert_eq!(line.width(), 0);
    assert_eq!(line.to_string(), "");
}

#[test]
fn line_insert_in_the_middle() {
    let mut line = Line::from_text("ac", false);
    line.insert(1, 'b');
    assert_eq!(line.to_string(), "abc");
    assert_eq!(line.len(), 3);
}

#[test]
fn line_insert_past_the_end_appends() {
    let mut line = Line::from_text("abc", false);
    line.insert(10, 'd');
    assert_eq!(line.to_string(), "abcd");
}

#[test]
fn line_insert_combining_mark_joins_grapheme() {
    let mut line = Line::from_text("ab", false);
    line.insert(1, '\u{301}');
    assert_eq!(line.to_string(), "a\u{301}b");
    assert_eq!(line.len(), 2);
}

#[test]
fn line_remove_grapheme() {
    let mut line = Line::from_text("abc", false);
    line.remove(1);
    assert_eq!(line.to_string(), "ac");
    line.remove(5);
    assert_eq!(line.to_string(), "ac");
}

#[test]
fn line_remove_whole_cluster() {
    let mut line = Line::from_text("ae\u{301}b", false);
    line.remove(1);
    assert_eq!(line.to_string(), "ab");
}

#[test]
fn line_append_joins_text() {
    let mut line = Line::from_text("ab", false);
    line.append(Line::from_text("cd", false));
    assert_eq!(line.to_string(), "abcd");
    assert_eq!(line.width(), 4);
}

#[test]
fn line_split_off_in_the_middle() {
    let mut line = Line::from_text("ab日d", false);
    let right = line.split_off(2);
    assert_eq!(line.to_string(), "ab");
    assert_eq!(right.to_string(), "日d");
    assert_eq!(right.width(), 3);
    assert_eq!(right.width_until(1), 2);
    assert_eq!(line.width(), 2);
}

#[test]
fn line_split_off_past_the_end_gives_empty_line() {
    let mut line = Line::from_text("abc", false);
    let right = line.split_off(10);
    assert_eq!(line.to_string(), "abc");
    assert_eq!(right.len(), 0);
}

#[test]
fn line_split_off_at_end_gives_empty_line() {
    let mut line = Line::from_text("abc", false);
    let right = line.split_off(3);
    assert_eq!(line.to_string(), "abc");
    assert_eq!(right.to_string(), "");
}

#[test]
fn visible_graphemes_mark_cut_wide_characters() {
    let line = Line::from_text("日本語", false);
    assert_eq!(line.get_visible_graphemes(1..5).to_string(), "\u{22EF}本\u{22EF}");
}

#[test]
fn visible_graphemes_of_whole_line() {
    let line = Line::from_text("hello", false);
    assert_eq!(line.get_visible_graphemes(0..80).to_string(), "hello");
    assert_eq!(line.get_visible_graphemes(1..3).to_string(), "el");
}

#[test]
fn visible_graphemes_of_empty_range() {
    let line = Line::from_text("hello", false);
    assert_eq!(line.get_visible_graphemes(3..3).to_string(), "");
    assert_eq!(line.get_visible_graphemes(4..2).to_string(), "");
}

#[test]
fn visible_graphemes_replace_tab_and_wide_space() {
    let line = Line::from_text("a\tb\u{3000}", false);
    assert_eq!(line.get_visible_graphemes(0..10).to_string(), "a b\u{2423}");
}

#[test]
fn replacement_characters() {
    assert_eq!(Line::replacement_character(" ", false), None);
    assert_eq!(Line::replacement_character("\t", false), Some(' '));
    assert_eq!(Line::replacement_character("\u{3000}", false), Some('\u{2423}'));
    assert_eq!(Line::replacement_character("\u{200B}", false), Some('\u{00B7}'));
    assert_eq!(Line::replacement_character("a", false), None);
}

#[test]
fn grapheme_widths_in_both_modes() {
    assert_eq!(grapheme_width("a", false), 1);
    assert_eq!(grapheme_width("日", false), 2);
    assert_eq!(grapheme_width("\u{B0}", false), 1);
    assert_eq!(grapheme_width("\u{B0}", true), 2);
}

#[test]
fn cjk_line_counts_ambiguous_characters_twice() {
    let line = Line::from_text("\u{B0}\u{2460}", true);
    assert_eq!(line.width(), 4);
    let plain = Line::from_text("\u{B0}\u{2460}", false);
    assert_eq!(plain.width(), 2);
}

#[test]
fn split_off_then_append_restores_text() {
    let mut line = Line::from_text("héllo 日本", false);
    let right = line.split_off(3);
    line.append(right);
    assert_eq!(line.to_string(), "héllo 日本");
    assert_eq!(line.len(), 8);
}

#[test]
fn unicode_spaces_are_shown_as_open_box() {
    assert_eq!(Line::replacement_character("\u{1680}", false), Some('\u{2423}'));
    assert_eq!(Line::replacement_character("\u{2003}", false), Some('\u{2423}'));
    assert_eq!(Line::replacement_character("\u{85}", false), Some('\u{2423}'));
}
