use scribe::{new, Position, TextStore};

fn store(content: &str) -> TextStore {
    TextStore::new(content.to_string())
}

const THREE_LINES: &str = "First line that is longer.\nThis is a test.\nAnother line that is longer.";

#[test]
fn move_up_goes_to_eol_if_offset_would_be_out_of_range() {
    let buffer = store("This is a test.\nAnother line that is longer.");
    let mut cursor = new(1, 20);
    cursor.move_up(&buffer);
    assert_eq!(cursor.line, 0);
    assert_eq!(cursor.offset, 15);
}

#[test]
fn move_down_goes_to_eol_if_offset_would_be_out_of_range() {
    let buffer = store("Another line that is longer.\nThis is a test.");
    let mut cursor = new(0, 20);
    cursor.move_down(&buffer);
    assert_eq!(cursor.line, 1);
    assert_eq!(cursor.offset, 15);
}

#[test]
fn move_up_persists_offset_across_shorter_lines() {
    let buffer = store(THREE_LINES);
    let mut cursor = new(2, 20);
    cursor.move_up(&buffer);
    cursor.move_up(&buffer);
    assert_eq!(cursor.line, 0);
    assert_eq!(cursor.offset, 20);
}

#[test]
fn move_down_persists_offset_across_shorter_lines() {
    let buffer = store(THREE_LINES);
    let mut cursor = new(0, 20);
    cursor.move_down(&buffer);
    cursor.move_down(&buffer);
    assert_eq!(cursor.line, 2);
    assert_eq!(cursor.offset, 20);
}

#[test]
fn move_to_sets_persisted_offset() {
    let buffer = store(THREE_LINES);
    let mut cursor = new(0, 20);
    cursor.move_to(&buffer, Position { line: 1, offset: 5 });
    cursor.move_down(&buffer);
    assert_eq!(cursor.line, 2);
    assert_eq!(cursor.offset, 5);
}

#[test]
fn move_to_start_of_line_sets_offset_to_zero() {
    let buffer = store("This is a test.\nAnother line.");
    let mut cursor = new(1, 5);
    cursor.move_to_start_of_line(&buffer);
    assert_eq!(cursor.line, 1);
    assert_eq!(cursor.offset, 0);
}

#[test]
fn move_to_end_of_line_sets_offset_the_line_length() {
    let buffer = store("This is a test.\nAnother line.");
    let mut cursor = new(0, 5);
    cursor.move_to_end_of_line(&buffer);
    assert_eq!(cursor.line, 0);
    assert_eq!(cursor.offset, 15);
}

#[test]
fn move_up_does_nothing_if_at_the_start_of_line() {
    let buffer = store("This is a test.");
    let mut cursor = new(0, 0);
    cursor.move_up(&buffer);
    assert_eq!(cursor.line, 0);
    assert_eq!(cursor.offset, 0);
}

#[test]
fn move_left_does_nothing_if_at_the_start_of_line() {
    let buffer = store("This is a test.");
    let mut cursor = new(0, 0);
    cursor.move_left(&buffer);
    assert_eq!(cursor.line, 0);
    assert_eq!(cursor.offset, 0);
}

#[test]
fn move_up_clamps_then_recovers_sticky_offset() {
    let buffer = store(THREE_LINES);
    let mut cursor = new(2, 20);
    cursor.move_up(&buffer);
    assert_eq!(cursor.position(), Position { line: 1, offset: 15 });
    assert_eq!(cursor.sticky_offset(), 20);
    cursor.move_up(&buffer);
    assert_eq!(cursor.position(), Position { line: 0, offset: 20 });
    assert_eq!(cursor.sticky_offset(), 20);
}

#[test]
fn move_to_rejects_out_of_bounds_and_keeps_state() {
    let buffer = store("scribe");
    let mut cursor = new(0, 0);
    assert!(cursor.move_to(&buffer, Position { line: 0, offset: 2 }));
    assert_eq!(cursor.position(), Position { line: 0, offset: 2 });
    assert_eq!(cursor.sticky_offset(), 2);
    assert!(!cursor.move_to(&buffer, Position { line: 2, offset: 2 }));
    assert!(!cursor.move_to(&buffer, Position { line: 0, offset: 7 }));
    assert_eq!(cursor.position(), Position { line: 0, offset: 2 });
    assert_eq!(cursor.sticky_offset(), 2);
}

#[test]
fn move_to_end_of_content_is_accepted() {
    let buffer = store("scribe");
    let mut cursor = new(0, 0);
    assert!(cursor.move_to(&buffer, Position { line: 0, offset: 6 }));
    assert_eq!(cursor.offset, 6);
}

#[test]
fn move_to_twice_equals_once() {
    let buffer = store(THREE_LINES);
    let mut cursor = new(0, 3);
    let target = Position { line: 2, offset: 7 };
    assert!(cursor.move_to(&buffer, target));
    let first = (cursor.position(), cursor.sticky_offset());
    assert!(cursor.move_to(&buffer, target));
    assert_eq!((cursor.position(), cursor.sticky_offset()), first);
}

#[test]
fn move_right_at_end_of_content_keeps_failing() {
    let buffer = store("ab");
    let mut cursor = new(0, 2);
    cursor.move_right(&buffer);
    assert_eq!(cursor.position(), Position { line: 0, offset: 2 });
    cursor.move_right(&buffer);
    assert_eq!(cursor.position(), Position { line: 0, offset: 2 });
}

#[test]
fn move_right_and_left_step_one_character() {
    let buffer = store("ab\ncd");
    let mut cursor = new(1, 0);
    cursor.move_right(&buffer);
    assert_eq!(cursor.position(), Position { line: 1, offset: 1 });
    cursor.move_left(&buffer);
    assert_eq!(cursor.position(), Position { line: 1, offset: 0 });
}

#[test]
fn move_down_past_last_line_does_nothing() {
    let buffer = store("one\ntwo");
    let mut cursor = new(1, 2);
    cursor.move_down(&buffer);
    assert_eq!(cursor.position(), Position { line: 1, offset: 2 });
    assert_eq!(cursor.sticky_offset(), 2);
}

#[test]
fn move_down_onto_trailing_empty_line() {
    let buffer = store("one\n");
    let mut cursor = new(0, 3);
    cursor.move_down(&buffer);
    assert_eq!(cursor.position(), Position { line: 1, offset: 0 });
    assert_eq!(cursor.sticky_offset(), 3);
}

#[test]
fn move_to_end_of_missing_line_does_nothing() {
    let buffer = store("one");
    let mut cursor = new(4, 1);
    cursor.move_to_end_of_line(&buffer);
    assert_eq!(cursor.position(), Position { line: 4, offset: 1 });
}

#[test]
fn move_to_start_of_line_twice_equals_once() {
    let buffer = store("one\ntwo");
    let mut cursor = new(1, 2);
    cursor.move_to_start_of_line(&buffer);
    cursor.move_to_start_of_line(&buffer);
    assert_eq!(cursor.position(), Position { line: 1, offset: 0 });
    assert_eq!(cursor.sticky_offset(), 0);
}
