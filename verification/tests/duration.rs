use prs_clip::time::{parse_duration, ParseDurationError};

#[test]
fn repeated_tokens_sum() {
    assert_eq!(parse_duration("1h1h").unwrap(), parse_duration("2h").unwrap());
    assert_eq!(parse_duration("1h1h").unwrap(), 7200);
}

#[test]
fn empty_input_is_rejected() {
    assert!(matches!(parse_duration(""), Err(ParseDurationError::Empty)));
}

#[test]
fn unknown_unit_is_rejected() {
    match parse_duration("10x") {
        Err(ParseDurationError::UnknownIdentifier(u)) => assert_eq!(u, "x"),
        other => panic!("expected an unknown-identifier error, got {:?}", other),
    }
}

#[test]
fn weeks_and_days() {
    assert_eq!(parse_duration("8w6d").unwrap(), 8 * 604800 + 6 * 86400);
}

#[test]
fn hours_and_minutes() {
    assert_eq!(parse_duration("23h14m").unwrap(), 23 * 3600 + 14 * 60);
}

#[test]
fn minutes_and_seconds() {
    assert_eq!(parse_duration("9m55s").unwrap(), 9 * 60 + 55);
}

#[test]
fn many_single_seconds() {
    assert_eq!(parse_duration("1s1s1s1s1s").unwrap(), 5);
}

#[test]
fn bare_number_means_seconds() {
    assert_eq!(parse_duration("10").unwrap(), 10);
    assert_eq!(parse_duration("10 ").unwrap(), 10);
}

#[test]
fn units_are_case_insensitive() {
    assert_eq!(parse_duration("1H").unwrap(), 3600);
    assert_eq!(parse_duration("2W").unwrap(), 2 * 604800);
}

#[test]
fn uppercase_unknown_unit_is_reported_lowercased() {
    match parse_duration("3Q") {
        Err(ParseDurationError::UnknownIdentifier(u)) => assert_eq!(u, "q"),
        other => panic!("expected an unknown-identifier error, got {:?}", other),
    }
}

#[test]
fn text_that_forms_no_token_is_skipped() {
    assert_eq!(parse_duration("1h!!2m").unwrap(), 3720);
    assert_eq!(parse_duration("abc10s").unwrap(), 10);
}

#[test]
fn number_split_by_space_is_no_token() {
    // "10 s" holds no complete token: the digits are followed neither by a
    // unit letter nor by whitespace reaching the end.
    assert!(matches!(parse_duration("10 s"), Err(ParseDurationError::Empty)));
}

#[test]
fn oversized_number_is_rejected() {
    assert!(matches!(
        parse_duration("99999999999999999999999999s"),
        Err(ParseDurationError::InvalidValue)
    ));
}

#[test]
fn overflowing_sum_is_rejected() {
    assert!(matches!(
        parse_duration("18446744073709551615s18446744073709551615s"),
        Err(ParseDurationError::InvalidValue)
    ));
}

#[test]
fn overflowing_unit_multiply_is_rejected() {
    assert!(matches!(
        parse_duration("18446744073709551615w"),
        Err(ParseDurationError::InvalidValue)
    ));
}
