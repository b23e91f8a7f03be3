use stm32_project_tool::json::json_list;
use stm32_project_tool::json::JsonError;

fn list(items: &[&str]) -> Vec<String> {
    items.iter().map(|s| s.to_string()).collect()
}

#[test]
fn json_list_writes_an_array_of_strings() {
    assert_eq!(json_list(&list(&["Core/Inc", "UserCode"])), Ok("[\"Core/Inc\",\"UserCode\"]".to_string()));
    assert_eq!(json_list(&list(&["one"])), Ok("[\"one\"]".to_string()));
    assert_eq!(json_list(&Vec::new()), Ok("[]".to_string()));
}

#[test]
fn json_list_escapes_what_json_cannot_hold() {
    assert_eq!(json_list(&list(&["a\"b"])), Ok("[\"a\\\"b\"]".to_string()));
    assert_eq!(json_list(&list(&["a\\b"])), Ok("[\"a\\\\b\"]".to_string()));
    assert_eq!(json_list(&list(&["a\nb\tc"])), Ok("[\"a\\nb\\tc\"]".to_string()));
    assert_eq!(json_list(&list(&["\u{1}"])), Ok("[\"\\u0001\"]".to_string()));
    assert_eq!(json_list(&list(&["é", ""])), Ok("[\"é\",\"\"]".to_string()));
}

#[test]
fn json_error_says_what_went_wrong() {
    assert_eq!(JsonError::NotWritten.message(), "the list cannot be written as JSON");
}
