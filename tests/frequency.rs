use fluxfeed::frequency::{interval_for_frequency, parse_fetch_frequency, parse_i64, FeedServiceError};

#[test]
fn test_parse_fetch_frequency_adaptive() {
    let result = parse_fetch_frequency("adaptive").unwrap();
    assert_eq!(result, 60);
}

#[test]
fn test_parse_fetch_frequency_valid_hours() {
    assert_eq!(parse_fetch_frequency("1").unwrap(), 60);
    assert_eq!(parse_fetch_frequency("6").unwrap(), 360);
    assert_eq!(parse_fetch_frequency("24").unwrap(), 1440);
    assert_eq!(parse_fetch_frequency("168").unwrap(), 10080);
}

#[test]
fn test_parse_fetch_frequency_invalid_hours() {
    assert!(parse_fetch_frequency("0").is_err());
    assert!(parse_fetch_frequency("169").is_err());
    assert!(parse_fetch_frequency("-5").is_err());
}

#[test]
fn test_parse_fetch_frequency_invalid_format() {
    assert!(parse_fetch_frequency("invalid").is_err());
    assert!(parse_fetch_frequency("12.5").is_err());
    assert!(parse_fetch_frequency("abc").is_err());
}

#[test]
fn test_parse_fetch_frequency_with_whitespace() {
    assert_eq!(parse_fetch_frequency("  adaptive  ").unwrap(), 60);
    assert_eq!(parse_fetch_frequency("  12  ").unwrap(), 720);
}

#[test]
fn test_feed_service_error_display() {
    let err = FeedServiceError::InvalidUrl("bad url".to_string());
    assert_eq!(err.message(), "Invalid feed URL: bad url");

    let err = FeedServiceError::NotFound;
    assert_eq!(err.message(), "Feed not found");

    let err = FeedServiceError::DuplicateUrl;
    assert_eq!(err.message(), "Duplicate feed URL");

    let err = FeedServiceError::InvalidFrequency;
    assert_eq!(
        err.message(),
        "Invalid fetch frequency: must be 'adaptive' or hours between 1-168"
    );
}

#[test]
fn frequency_error_is_invalid_frequency() {
    assert_eq!(parse_fetch_frequency("0"), Err(FeedServiceError::InvalidFrequency));
    assert_eq!(parse_fetch_frequency(""), Err(FeedServiceError::InvalidFrequency));
    assert_eq!(parse_fetch_frequency("+2"), Ok(120));
    assert_eq!(parse_fetch_frequency("007"), Ok(420));
}

#[test]
fn untrimmed_frequency_is_not_trimmed_again() {
    assert_eq!(interval_for_frequency(" 12"), Err(FeedServiceError::InvalidFrequency));
    assert_eq!(interval_for_frequency("12"), Ok(720));
    assert_eq!(interval_for_frequency("adaptive"), Ok(60));
}

#[test]
fn parse_i64_matches_std() {
    for s in ["0", "-0", "+7", "-7", "42", "9223372036854775807", "-9223372036854775808",
              "9223372036854775808", "-9223372036854775809", "", "-", "+", "1a", " 1", "12.5",
              "99999999999999999999999"] {
        assert_eq!(parse_i64(s), s.parse::<i64>().ok(), "input {:?}", s);
    }
}
