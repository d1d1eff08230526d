use center_window::status::LastOperationStatus;
use center_window::title::{placeholder_title, plan_title_lookup, title_from_buffer, TitlePlan};

fn units(text: &str) -> Vec<u16> {
    text.encode_utf16().collect()
}

#[test]
fn zero_length_without_error_uses_the_placeholder() {
    assert_eq!(plan_title_lookup(0, 0), TitlePlan::UsePlaceholder);
}

#[test]
fn zero_length_with_error_fails() {
    assert_eq!(plan_title_lookup(0, 5), TitlePlan::Fail);
    assert_eq!(plan_title_lookup(0, u32::MAX), TitlePlan::Fail);
}

#[test]
fn other_lengths_ask_for_one_more_unit() {
    assert_eq!(plan_title_lookup(1, 0), TitlePlan::Fetch { capacity: 2 });
    assert_eq!(plan_title_lookup(7, 0), TitlePlan::Fetch { capacity: 8 });
    assert_eq!(
        plan_title_lookup(i32::MAX - 1, 0),
        TitlePlan::Fetch { capacity: i32::MAX }
    );
}

#[test]
fn error_code_is_ignored_for_a_length_other_than_zero() {
    assert_eq!(plan_title_lookup(7, 1400), TitlePlan::Fetch { capacity: 8 });
}

#[test]
fn placeholder_is_the_literal() {
    assert_eq!(placeholder_title(), units("(empty)"));
    assert_eq!(placeholder_title(), vec![40, 101, 109, 112, 116, 121, 41]);
    assert!(!placeholder_title().is_empty());
}

#[test]
fn fetched_title_drops_the_terminator_slot() {
    let mut buffer = units("Notepad");
    buffer.push(0);
    assert_eq!(buffer.len(), 8);
    let title = title_from_buffer(buffer, 7);
    assert_eq!(title, Ok(units("Notepad")));
}

#[test]
fn fetched_title_is_one_shorter_than_the_buffer() {
    let buffer: Vec<u16> = vec![0x41, 0x42, 0, 0, 0, 0];
    let title = title_from_buffer(buffer, 2).unwrap();
    assert_eq!(title.len(), 5);
    assert_eq!(title, vec![0x41, 0x42, 0, 0, 0]);
}

#[test]
fn nothing_copied_is_a_failure() {
    let buffer: Vec<u16> = vec![0; 8];
    assert_eq!(
        title_from_buffer(buffer, 0),
        Err(LastOperationStatus::TitleFetchFailed)
    );
}

#[test]
fn empty_buffer_gives_empty_title() {
    assert_eq!(title_from_buffer(Vec::new(), 1), Ok(Vec::new()));
}
