use weefee::editor::{edit, EditRequest};

#[test]
fn insert_puts_the_character_at_the_cursor() {
    assert_eq!(edit("", 0, EditRequest::Insert('a')), ("a".to_string(), 1));
    assert_eq!(edit("ac", 1, EditRequest::Insert('b')), ("abc".to_string(), 2));
    assert_eq!(edit("ab", 2, EditRequest::Insert('c')), ("abc".to_string(), 3));
    assert_eq!(edit("bc", 0, EditRequest::Insert('a')), ("abc".to_string(), 1));
}

#[test]
fn cursor_beyond_the_end_counts_as_the_end() {
    assert_eq!(edit("ab", 9, EditRequest::Insert('c')), ("abc".to_string(), 3));
    assert_eq!(edit("ab", 9, EditRequest::DeletePrevChar), ("a".to_string(), 1));
    assert_eq!(edit("ab", 9, EditRequest::PrevChar), ("ab".to_string(), 1));
    assert_eq!(edit("ab", 9, EditRequest::NextChar), ("ab".to_string(), 2));
    assert_eq!(edit("ab", 9, EditRequest::PrevWord), ("ab".to_string(), 0));
    assert_eq!(edit("ab", 9, EditRequest::NextWord), ("ab".to_string(), 2));
    assert_eq!(edit("ab", 9, EditRequest::DeletePrevWord), ("".to_string(), 0));
}

#[test]
fn steps_by_character() {
    assert_eq!(edit("abc", 2, EditRequest::PrevChar), ("abc".to_string(), 1));
    assert_eq!(edit("abc", 0, EditRequest::PrevChar), ("abc".to_string(), 0));
    assert_eq!(edit("abc", 2, EditRequest::NextChar), ("abc".to_string(), 3));
    assert_eq!(edit("abc", 3, EditRequest::NextChar), ("abc".to_string(), 3));
    assert_eq!(edit("abc", 2, EditRequest::DeletePrevChar), ("ac".to_string(), 1));
    assert_eq!(edit("abc", 0, EditRequest::DeletePrevChar), ("abc".to_string(), 0));
}

#[test]
fn a_character_of_several_code_points_is_one_step() {
    let text = "e\u{301}x";
    assert_eq!(edit(text, 2, EditRequest::PrevChar), (text.to_string(), 0));
    assert_eq!(edit(text, 0, EditRequest::NextChar), (text.to_string(), 2));
    assert_eq!(edit(text, 2, EditRequest::DeletePrevChar), ("x".to_string(), 0));
}

#[test]
fn steps_by_word() {
    assert_eq!(edit("hello world", 11, EditRequest::PrevWord), ("hello world".to_string(), 6));
    assert_eq!(edit("hello world", 6, EditRequest::PrevWord), ("hello world".to_string(), 0));
    assert_eq!(edit("hello world", 0, EditRequest::NextWord), ("hello world".to_string(), 5));
    assert_eq!(edit("hello world", 5, EditRequest::NextWord), ("hello world".to_string(), 11));
    assert_eq!(edit("hello world", 8, EditRequest::PrevWord), ("hello world".to_string(), 6));
    assert_eq!(edit("hello world", 2, EditRequest::NextWord), ("hello world".to_string(), 5));
    assert_eq!(edit("", 0, EditRequest::PrevWord), ("".to_string(), 0));
    assert_eq!(edit("", 0, EditRequest::NextWord), ("".to_string(), 0));
    assert_eq!(edit("   ", 3, EditRequest::PrevWord), ("   ".to_string(), 0));
    assert_eq!(edit("   ", 0, EditRequest::NextWord), ("   ".to_string(), 3));
}

#[test]
fn word_deletion() {
    assert_eq!(edit("hello world", 11, EditRequest::DeletePrevWord), ("hello ".to_string(), 6));
    assert_eq!(edit("hello world", 8, EditRequest::DeletePrevWord), ("hello rld".to_string(), 6));
    assert_eq!(edit("hello world", 6, EditRequest::DeletePrevWord), ("world".to_string(), 0));
    assert_eq!(edit("hello world", 0, EditRequest::DeletePrevWord), ("hello world".to_string(), 0));
    assert_eq!(edit("a.b/c d", 5, EditRequest::DeletePrevWord), (" d".to_string(), 0));
}
