use pomodoro_sync::duration::ParseSessionDurationError;
use pomodoro_sync::duration::SessionDuration;

#[test]
fn bare_minutes_parse() {
    assert_eq!(SessionDuration::parse("25").unwrap().millis, 25 * 60 * 1000);
    assert_eq!(SessionDuration::parse("0").unwrap().millis, 0);
    assert_eq!(SessionDuration::parse("90").unwrap().millis, 90 * 60 * 1000);
}

#[test]
fn minutes_and_seconds_parse() {
    assert_eq!(SessionDuration::parse("5:30").unwrap().millis, 330 * 1000);
    assert_eq!(SessionDuration::parse("0:00").unwrap().millis, 0);
    assert_eq!(SessionDuration::parse("0:59").unwrap().millis, 59 * 1000);
    assert_eq!(SessionDuration::parse("120:05").unwrap().millis, (120 * 60 + 5) * 1000);
}

#[test]
fn sixty_seconds_or_more_are_rejected() {
    assert_eq!(
        SessionDuration::parse("5:60").unwrap_err(),
        ParseSessionDurationError::TooManySeconds
    );
    assert_eq!(
        SessionDuration::parse("5:99").unwrap_err(),
        ParseSessionDurationError::TooManySeconds
    );
}

#[test]
fn seconds_must_be_exactly_two_digits() {
    assert_eq!(
        SessionDuration::parse("5:3").unwrap_err(),
        ParseSessionDurationError::NotTwoDigitsForSeconds
    );
    assert_eq!(
        SessionDuration::parse("5:003").unwrap_err(),
        ParseSessionDurationError::NotTwoDigitsForSeconds
    );
}

#[test]
fn more_than_two_fields_is_an_invalid_format() {
    assert_eq!(
        SessionDuration::parse("1:2:3").unwrap_err(),
        ParseSessionDurationError::InvalidFormat
    );
}

#[test]
fn non_numbers_are_integer_parse_errors() {
    assert_eq!(
        SessionDuration::parse("").unwrap_err(),
        ParseSessionDurationError::ParseIntError
    );
    assert_eq!(
        SessionDuration::parse("abc").unwrap_err(),
        ParseSessionDurationError::ParseIntError
    );
    assert_eq!(
        SessionDuration::parse(":30").unwrap_err(),
        ParseSessionDurationError::ParseIntError
    );
    assert_eq!(
        SessionDuration::parse("5:").unwrap_err(),
        ParseSessionDurationError::ParseIntError
    );
    assert_eq!(
        SessionDuration::parse("2 5").unwrap_err(),
        ParseSessionDurationError::ParseIntError
    );
}

#[test]
fn a_bad_minute_field_is_reported_before_the_field_count() {
    // the minute field is examined first, so its error wins over the
    // malformed field count
    assert_eq!(
        SessionDuration::parse("x:1:2").unwrap_err(),
        ParseSessionDurationError::ParseIntError
    );
}

#[test]
fn values_too_large_to_represent_are_integer_parse_errors() {
    // more than u64::MAX minutes
    assert_eq!(
        SessionDuration::parse("18446744073709551616").unwrap_err(),
        ParseSessionDurationError::ParseIntError
    );
    // representable minutes whose milliseconds overflow
    assert_eq!(
        SessionDuration::parse("307445734561825861").unwrap_err(),
        ParseSessionDurationError::ParseIntError
    );
    // the largest representable whole-minute duration still parses
    assert_eq!(
        SessionDuration::parse("307445734561825").unwrap().millis,
        307445734561825u64 * 60000
    );
}
