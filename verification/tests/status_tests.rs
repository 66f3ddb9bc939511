use hecto::cjk::use_cjk_width;
use hecto::documentstatus::DocumentStatus;
use hecto::messagebar::MessageBar;
use hecto::terminal::Size;

fn status(total_lines: usize, current_line_index: usize, is_modified: bool) -> DocumentStatus {
    DocumentStatus { total_lines, current_line_index, is_modified, filename: String::from("a.txt") }
}

#[test]
fn modified_indicator() {
    assert_eq!(status(1, 0, true).modified_indicator_to_string(), "(modified)");
    assert_eq!(status(1, 0, false).modified_indicator_to_string(), "");
}

#[test]
fn line_count() {
    assert_eq!(status(0, 0, false).line_count_to_string(), "0 line");
    assert_eq!(status(12, 0, false).line_count_to_string(), "12 line");
    assert_eq!(status(1_000_007, 0, false).line_count_to_string(), "1000007 line");
}

#[test]
fn position_indicator() {
    assert_eq!(status(12, 3, false).position_indicator_to_string(), "3/12");
    assert_eq!(status(100, 90, false).position_indicator_to_string(), "90/100");
}

#[test]
fn default_status_is_empty() {
    let s = DocumentStatus::default();
    assert_eq!(s, DocumentStatus { total_lines: 0, current_line_index: 0, is_modified: false, filename: String::new() });
}

#[test]
fn message_bar_shows_fresh_message() {
    let mut bar = MessageBar::default();
    assert!(!bar.needs_redraw());
    bar.update_message(String::from("hello"));
    assert!(bar.needs_redraw());
    assert_eq!(bar.draw(), "hello");
    bar.set_need_redraw(false);
    assert!(!bar.needs_redraw());
}

#[test]
fn message_bar_clears_expired_message_once() {
    let mut bar = MessageBar::default();
    bar.update_message(String::from("hello"));
    assert!(bar.needs_redraw_when(true));
    assert_eq!(bar.draw_when(true), "");
    bar.set_need_redraw(false);
    assert!(!bar.needs_redraw_when(true));
    assert!(!bar.needs_redraw_when(false));
    assert_eq!(bar.draw_when(false), "hello");
}

#[test]
fn message_bar_resize_asks_for_redraw() {
    let mut bar = MessageBar::default();
    bar.resize(Size { width: 10, height: 1 });
    assert!(bar.needs_redraw());
    bar.set_need_redraw(false);
    bar.set_size(Size { width: 20, height: 1 });
    assert!(!bar.needs_redraw_when(false));
}

#[test]
fn cjk_setting_decides_first() {
    let none: Vec<Option<String>> = vec![Some(String::from("ja_JP.UTF-8"))];
    assert!(use_cjk_width(Some("1"), &none));
    assert!(use_cjk_width(Some("TRUE"), &none));
    assert!(use_cjk_width(Some("True"), &vec![]));
    assert!(!use_cjk_width(Some("0"), &none));
    assert!(!use_cjk_width(Some("yes"), &none));
}

#[test]
fn cjk_from_locales() {
    assert!(use_cjk_width(None, &vec![None, Some(String::from("ZH_cn.UTF-8")), None]));
    assert!(use_cjk_width(None, &vec![Some(String::from("en_US.UTF-8")), None, Some(String::from("ko_KR"))]));
    assert!(use_cjk_width(None, &vec![Some(String::from("ja"))]));
    assert!(!use_cjk_width(None, &vec![Some(String::from("en_US.UTF-8")), Some(String::from("C")), None]));
    assert!(!use_cjk_width(None, &vec![Some(String::from("xzh"))]));
    assert!(!use_cjk_width(None, &vec![]));
}

#[test]
fn message_bar_shows_message_for_five_seconds() {
    let mut bar = MessageBar::default();
    bar.update_message(String::from("saved"));
    assert!(bar.needs_redraw_at(0));
    assert_eq!(bar.draw_at(5_000_000_000), "saved");
    bar.set_need_redraw(false);
    assert!(!bar.needs_redraw_at(5_000_000_000));
    assert!(bar.needs_redraw_at(5_000_000_001));
    assert_eq!(bar.draw_at(5_000_000_001), "");
    assert!(!bar.needs_redraw_at(9_000_000_000));
}

#[test]
fn status_line_puts_position_on_the_right() {
    let s = DocumentStatus { total_lines: 12, current_line_index: 3, is_modified: true, filename: String::from("a.txt") };
    assert_eq!(s.status_line(40), "a.txt - 12 line (modified)          3/12");
    assert_eq!(s.status_line(40).chars().count(), 40);
    let clean = status(2, 0, false);
    assert_eq!(clean.status_line(20), "a.txt - 2 line   0/2");
    assert_eq!(clean.status_line(17), "a.txt - 2 line 0/2".chars().take(0).collect::<String>());
    assert_eq!(clean.status_line(18), "a.txt - 2 line 0/2");
}
