use pomorusto::config::{parse_arguments, parse_duration, ArgumentError};

fn toks(parts: &[&str]) -> Vec<String> {
    parts.iter().map(|p| p.to_string()).collect()
}

#[test]
fn parses_duration_and_tasks_in_order() {
    let tokens = toks(&["prog", "5", "write report", "review PR"]);
    let cfg = parse_arguments(&tokens).unwrap();
    assert_eq!(cfg.duration, 5);
    assert_eq!(cfg.tasks, vec!["write report".to_string(), "review PR".to_string()]);
}

#[test]
fn parses_duration_without_tasks() {
    let tokens = toks(&["prog", "1"]);
    let cfg = parse_arguments(&tokens).unwrap();
    assert_eq!(cfg.duration, 1);
    assert!(cfg.tasks.is_empty());
}

#[test]
fn preserves_task_order_exactly() {
    let tokens = toks(&["prog", "25", "c", "a", "b", "a"]);
    let cfg = parse_arguments(&tokens).unwrap();
    assert_eq!(
        cfg.tasks,
        vec!["c".to_string(), "a".to_string(), "b".to_string(), "a".to_string()]
    );
}

#[test]
fn missing_duration_fails() {
    let tokens = toks(&["prog"]);
    assert_eq!(parse_arguments(&tokens).unwrap_err(), ArgumentError::MissingDuration);
}

#[test]
fn empty_token_list_fails() {
    let tokens: Vec<String> = Vec::new();
    assert_eq!(parse_arguments(&tokens).unwrap_err(), ArgumentError::MissingDuration);
}

#[test]
fn non_numeric_duration_fails() {
    let tokens = toks(&["prog", "abc"]);
    assert_eq!(parse_arguments(&tokens).unwrap_err(), ArgumentError::InvalidDuration);
}

#[test]
fn non_numeric_duration_with_tasks_fails() {
    let tokens = toks(&["prog", "soon", "write report"]);
    assert_eq!(parse_arguments(&tokens).unwrap_err(), ArgumentError::InvalidDuration);
}

#[test]
fn zero_duration_parses() {
    let tokens = toks(&["prog", "0"]);
    assert_eq!(parse_arguments(&tokens).unwrap().duration, 0);
}

#[test]
fn duration_with_leading_zeros_parses() {
    assert_eq!(parse_duration("007"), Ok(7));
}

#[test]
fn largest_duration_parses() {
    assert_eq!(parse_duration("18446744073709551615"), Ok(u64::MAX));
}

#[test]
fn duration_just_past_the_largest_fails() {
    assert_eq!(
        parse_duration("18446744073709551616"),
        Err(ArgumentError::InvalidDuration)
    );
}

#[test]
fn much_too_large_duration_fails() {
    assert_eq!(
        parse_duration("99999999999999999999999999"),
        Err(ArgumentError::InvalidDuration)
    );
}

#[test]
fn empty_duration_token_fails() {
    assert_eq!(parse_duration(""), Err(ArgumentError::InvalidDuration));
}

#[test]
fn signed_duration_tokens_fail() {
    assert_eq!(parse_duration("+5"), Err(ArgumentError::InvalidDuration));
    assert_eq!(parse_duration("-5"), Err(ArgumentError::InvalidDuration));
}

#[test]
fn duration_with_inner_junk_fails() {
    assert_eq!(parse_duration("1a2"), Err(ArgumentError::InvalidDuration));
    assert_eq!(parse_duration("12 "), Err(ArgumentError::InvalidDuration));
    assert_eq!(parse_duration("1.5"), Err(ArgumentError::InvalidDuration));
}
