use p2a::edit_distance::levenshtein_distance;
use p2a::output::{
    find_similar_columns, format_dataset_summary, format_error, format_message, validate_column_exists,
    validate_columns_exist, validate_positive, validate_range, validate_sample_size, OutputFormat,
};

fn names(v: &[&str]) -> Vec<String> {
    v.iter().map(|s| s.to_string()).collect()
}

#[test]
fn output_format_defaults_to_text() {
    assert!(OutputFormat::default() == OutputFormat::Text);
}

#[test]
fn message_in_text_and_table_is_the_message() {
    assert_eq!(format_message("Loaded 3 rows", &OutputFormat::Text), "Loaded 3 rows");
    assert_eq!(format_message("Loaded 3 rows", &OutputFormat::Table), "Loaded 3 rows");
}

#[test]
fn message_in_json_is_an_object() {
    assert_eq!(format_message("hi", &OutputFormat::Json), "{\"message\":\"hi\"}");
    assert_eq!(format_message("say \"x\"", &OutputFormat::Json), "{\"message\":\"say \\\"x\\\"\"}");
}

#[test]
fn error_in_text_is_prefixed() {
    assert_eq!(format_error("boom", &OutputFormat::Text), "Error: boom");
}

#[test]
fn error_in_json_is_an_object() {
    assert_eq!(format_error("boom", &OutputFormat::Json), "{\"error\":\"boom\"}");
}

#[test]
fn dataset_summary_as_text() {
    let cols = names(&["x", "y"]);
    let s = format_dataset_summary("sales", 10, 2, &cols, &OutputFormat::Text);
    assert_eq!(s, "Dataset: sales\n  Rows: 10\n  Columns: 2\n  Column names: x, y\n");
}

#[test]
fn dataset_summary_as_json() {
    let cols = names(&["x", "y"]);
    let s = format_dataset_summary("sales", 10, 2, &cols, &OutputFormat::Json);
    let expected = "{\n  \"column_names\": [\n    \"x\",\n    \"y\"\n  ],\n  \"columns\": 2,\n  \"name\": \"sales\",\n  \"rows\": 10\n}";
    assert_eq!(s, expected);
}

#[test]
fn range_accepts_bounds_inclusive() {
    assert!(validate_range(5, Some(1), Some(10), "lags").is_ok());
    assert!(validate_range(1, Some(1), Some(10), "lags").is_ok());
    assert!(validate_range(10, Some(1), Some(10), "lags").is_ok());
    assert!(validate_range(-7, None, None, "lags").is_ok());
}

#[test]
fn range_below_minimum() {
    assert_eq!(
        validate_range(0, Some(1), Some(10), "lags").unwrap_err(),
        "Invalid lags: 0 is below minimum allowed value (1)."
    );
    assert_eq!(
        validate_range(-5, Some(-2), None, "shift").unwrap_err(),
        "Invalid shift: -5 is below minimum allowed value (-2)."
    );
}

#[test]
fn range_above_maximum() {
    assert_eq!(
        validate_range(11, Some(1), Some(10), "lags").unwrap_err(),
        "Invalid lags: 11 exceeds maximum allowed value (10)."
    );
}

#[test]
fn sample_size_checks() {
    assert!(validate_sample_size(30, 30, "OLS").is_ok());
    assert_eq!(
        validate_sample_size(5, 30, "OLS").unwrap_err(),
        "Insufficient sample size for OLS: 5 observations provided, but at least 30 required."
    );
}

#[test]
fn positive_checks() {
    assert!(validate_positive(1, "k").is_ok());
    assert_eq!(validate_positive(0, "k").unwrap_err(), "Invalid k: value must be greater than 0.");
}

#[test]
fn levenshtein_classic_example() {
    assert_eq!(levenshtein_distance("kitten", "sitting"), 3);
    assert_eq!(levenshtein_distance("", "abc"), 3);
    assert_eq!(levenshtein_distance("abc", ""), 3);
}

#[test]
fn levenshtein_ignores_case() {
    assert_eq!(levenshtein_distance("Income", "income"), 0);
    assert_eq!(levenshtein_distance("AGE", "age"), 0);
}

#[test]
fn levenshtein_is_symmetric_and_zero_on_equal() {
    assert_eq!(levenshtein_distance("price", "prize"), levenshtein_distance("prize", "price"));
    assert_eq!(levenshtein_distance("flaw", "lawn"), 2);
    assert_eq!(levenshtein_distance("lawn", "flaw"), 2);
    assert_eq!(levenshtein_distance("same", "same"), 0);
}

#[test]
fn similar_columns_sorted_by_distance_then_order() {
    let cols = names(&["income", "incme", "age", "outcome", "Income2"]);
    let r = find_similar_columns(&cols, "income", 3);
    assert_eq!(r, names(&["income", "incme", "Income2"]));
}

#[test]
fn similar_columns_drop_far_names() {
    let cols = names(&["alpha", "beta"]);
    assert!(find_similar_columns(&cols, "zzzzzzzzzz", 3).is_empty());
}

#[test]
fn suggestions_are_within_three_edits() {
    let cols = names(&["wage", "wages", "gender", "weight", "w"]);
    for s in find_similar_columns(&cols, "wage", 10) {
        assert!(levenshtein_distance(&s, "wage") <= 3);
        assert!(cols.contains(&s));
    }
}

#[test]
fn column_exists_ok() {
    let cols = names(&["x", "y"]);
    assert!(validate_column_exists(&cols, "y", "regression").is_ok());
}

#[test]
fn column_missing_with_suggestions() {
    let cols = names(&["income", "age"]);
    let e = validate_column_exists(&cols, "incom", "dependent variable").unwrap_err();
    assert_eq!(
        e,
        "Column 'incom' not found (for dependent variable).\n  Did you mean one of these?\n    - income\n  Available columns: income, age"
    );
}

#[test]
fn column_missing_without_suggestions() {
    let cols = names(&["a"]);
    let e = validate_column_exists(&cols, "zzzzzz", "x").unwrap_err();
    assert_eq!(e, "Column 'zzzzzz' not found (for x).\n  Available columns: a");
}

#[test]
fn column_missing_lists_first_ten_of_many() {
    let cols: Vec<String> = (0..12).map(|i| format!("c{}", i)).collect();
    let e = validate_column_exists(&cols, "zzzzzzzz", "x").unwrap_err();
    assert!(e.ends_with("Available columns: c0, c1, c2, c3, c4, c5, c6, c7, c8, c9, ... (12 total)"));
}

#[test]
fn columns_exist_reports_first_missing() {
    let cols = names(&["x", "y"]);
    assert!(validate_columns_exist(&cols, &names(&["x", "y"]), "model").is_ok());
    let e = validate_columns_exist(&cols, &names(&["x", "q", "r"]), "model").unwrap_err();
    assert!(e.starts_with("Column 'q' not found (for model)."));
}

#[test]
fn levenshtein_triangle_and_zero() {
    let words = ["kitten", "sitting", "mitten", "Kitten", "", "sit"];
    for a in words {
        for b in words {
            assert_eq!(levenshtein_distance(a, b) == 0, a.to_lowercase() == b.to_lowercase());
            for c in words {
                assert!(levenshtein_distance(a, c) <= levenshtein_distance(a, b) + levenshtein_distance(b, c));
            }
        }
    }
}

#[test]
fn json_messages_escape_control_characters() {
    assert_eq!(
        format_error("tab\there\nline\u{1}\\", &OutputFormat::Json),
        "{\"error\":\"tab\\there\\nline\\u0001\\\\\"}"
    );
    assert_eq!(format_message("\u{1f}\u{c}\u{8}\r", &OutputFormat::Json), "{\"message\":\"\\u001f\\f\\b\\r\"}");
}
