use linewindow::config::{
    is_stdin_token, select_bound, select_numbering, ConfigError, NumberingMode, PrefixBound,
    DEFAULT_LINE_BOUND,
};

#[test]
fn numbering_flags_select_their_modes() {
    assert_eq!(select_numbering(false, false), Ok(NumberingMode::Plain));
    assert_eq!(select_numbering(true, false), Ok(NumberingMode::AllLines));
    assert_eq!(select_numbering(false, true), Ok(NumberingMode::NonblankLines));
}

#[test]
fn conflicting_numbering_flags_are_rejected() {
    assert_eq!(select_numbering(true, true), Err(ConfigError::ConflictingModes));
}

#[test]
fn bound_defaults_to_ten_lines() {
    assert_eq!(select_bound(None, None), Ok(PrefixBound::Lines(DEFAULT_LINE_BOUND)));
    assert_eq!(select_bound(None, None), Ok(PrefixBound::Lines(10)));
}

#[test]
fn explicit_bounds_are_kept() {
    assert_eq!(select_bound(Some(3), None), Ok(PrefixBound::Lines(3)));
    assert_eq!(select_bound(None, Some(5)), Ok(PrefixBound::Bytes(5)));
}

#[test]
fn conflicting_bounds_are_rejected() {
    assert_eq!(select_bound(Some(3), Some(5)), Err(ConfigError::ConflictingBounds));
}

#[test]
fn zero_bounds_are_rejected() {
    assert_eq!(select_bound(Some(0), None), Err(ConfigError::ZeroBound));
    assert_eq!(select_bound(None, Some(0)), Err(ConfigError::ZeroBound));
}

#[test]
fn dash_names_standard_input() {
    assert!(is_stdin_token(&"-".to_string()));
    assert!(!is_stdin_token(&"file.txt".to_string()));
    assert!(!is_stdin_token(&"--".to_string()));
    assert!(!is_stdin_token(&String::new()));
}
