use screenpipe_vision::ocr_json::native_ocr_output;
use screenpipe_vision::text_files::{plan_text_files, record_text, text_file_name, text_lines, TextCategory};

fn row(pairs: &[(&str, &str)]) -> Vec<(String, String)> {
    pairs.iter().map(|(k, v)| (k.to_string(), v.to_string())).collect()
}

#[test]
fn file_names_carry_category_and_frame() {
    assert_eq!(text_file_name(TextCategory::New, 42), "new_text_42.txt");
    assert_eq!(text_file_name(TextCategory::Current, 7), "current_text_7.txt");
    assert_eq!(text_file_name(TextCategory::Previous, 0), "previous_text_0.txt");
    assert_eq!(text_file_name(TextCategory::New, 18446744073709551615), "new_text_18446744073709551615.txt");
}

#[test]
fn record_text_finds_the_text_member() {
    assert_eq!(record_text(&row(&[("confidence", "85.00"), ("text", "hello world")])), "hello world");
    assert_eq!(record_text(&row(&[("confidence", "85.00")])), "");
    assert_eq!(record_text(&Vec::new()), "");
}

#[test]
fn text_lines_keep_record_order() {
    let rows = vec![row(&[("text", "one")]), row(&[("confidence", "1.00")]), row(&[("text", "three")])];
    assert_eq!(text_lines(&rows), vec!["one".to_string(), String::new(), "three".to_string()]);
}

#[test]
fn text_files_without_previous() {
    let new_rows = vec![row(&[("text", "new line")])];
    let current_rows = vec![row(&[("text", "a")]), row(&[("text", "b")])];
    let files = plan_text_files(5, &new_rows, &current_rows, &None);
    assert_eq!(files.len(), 2);
    assert_eq!(files[0], ("new_text_5.txt".to_string(), vec!["new line".to_string()]));
    assert_eq!(files[1], ("current_text_5.txt".to_string(), vec!["a".to_string(), "b".to_string()]));
}

#[test]
fn text_files_with_previous() {
    let previous = Some(vec![row(&[("text", "old")])]);
    let files = plan_text_files(9, &Vec::new(), &Vec::new(), &previous);
    assert_eq!(files.len(), 3);
    assert_eq!(files[0], ("new_text_9.txt".to_string(), Vec::new()));
    assert_eq!(files[2], ("previous_text_9.txt".to_string(), vec!["old".to_string()]));
}

#[test]
fn native_output_has_no_confidence() {
    let (text, json) = native_ocr_output("Hello there".to_string());
    assert_eq!(text, "Hello there");
    assert_eq!(json, "[{\"confidence\":\"n/a\",\"text\":\"Hello there\"}]");
}

#[test]
fn native_rows_hold_text_and_sentinel() {
    let rows = screenpipe_vision::ocr_json::native_rows(&"abc".to_string());
    assert_eq!(rows, vec![vec![("text".to_string(), "abc".to_string()), ("confidence".to_string(), "n/a".to_string())]]);
}
