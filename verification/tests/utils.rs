use lool::sched::utils::{hm_to_s, parse_time, tz_to_s};

#[test]
fn test_h_m_to_seconds() {
    assert_eq!(hm_to_s(1, 30), 5400);
    assert_eq!(hm_to_s(2, 0), 7200);
    assert_eq!(hm_to_s(3, 0), 10800);
    assert_eq!(hm_to_s(0, 0), 0);
}

#[test]
fn test_timezone_offset_to_seconds() {
    assert_eq!(tz_to_s("+01:00").unwrap(), 3600);
    assert_eq!(tz_to_s("-03:00").unwrap(), -10800);
    assert_eq!(tz_to_s("+03").unwrap(), 10800);
    assert_eq!(tz_to_s("+00:00").unwrap(), 0);
    assert_eq!(tz_to_s("-00:00").unwrap(), 0);
    assert_eq!(tz_to_s("-3").unwrap(), -10800);
    assert_eq!(tz_to_s("-3:30").unwrap(), -12600);

    // UTC+ and UTC- are also valid

    assert_eq!(tz_to_s("UTC+01:00").unwrap(), 3600);
    assert_eq!(tz_to_s("UTC-03:00").unwrap(), -10800);
    assert_eq!(tz_to_s("UTC+03").unwrap(), 10800);
    assert_eq!(tz_to_s("UTC+00:00").unwrap(), 0);
    assert_eq!(tz_to_s("UTC-00:00").unwrap(), 0);
    assert_eq!(tz_to_s("UTC-3").unwrap(), -10800);
    assert_eq!(tz_to_s("UTC-3:30").unwrap(), -12600);
}

#[test]
fn test_timezone_offset_to_seconds_missing_sign_err() {
    let err = tz_to_s("01:00").unwrap_err().message();
    assert_eq!(err, "invalid timezone offset");
}

#[test]
fn test_timezone_offset_to_seconds_invalid_format_errs() {
    let err = tz_to_s("+01:00:00").unwrap_err().message();
    assert_eq!(err, "invalid timezone offset (format should be `+hh{:mm}?`)");

    let err = tz_to_s("+01:").unwrap_err().message();
    assert_eq!(err, "invalid timezone offset (format should be `+hh{:mm}?`)");

    let err = tz_to_s("--01:00").unwrap_err().message();
    assert_eq!(err, "invalid timezone offset (format should be `+hh{:mm}?`)");

    let err = tz_to_s("+01:-01").unwrap_err().message();
    assert_eq!(err, "invalid timezone offset (format should be `+hh{:mm}?`)");

    let err = tz_to_s("+15:01").unwrap_err().message();
    assert_eq!(err, "invalid timezone offset (hour should be between 0 and 14)");

    let err = tz_to_s("+01:60").unwrap_err().message();
    assert_eq!(err, "invalid timezone offset (minute should be between 0 and 59)");
}

#[test]
fn test_parse_time() {
    assert_eq!(parse_time("12:30").unwrap(), (12, 30, 0));
    assert_eq!(parse_time("12:30:45").unwrap(), (12, 30, 45));
    assert_eq!(parse_time("0:0").unwrap(), (0, 0, 0));
    assert!(parse_time("12").is_err());
    assert!(parse_time("24:00").is_err());
    assert!(parse_time("12:60").is_err());
    assert!(parse_time("12:30:60").is_err());
    assert!(parse_time("ab:cd").is_err());
    assert_eq!(
        parse_time("12").unwrap_err().message(),
        "invalid time format, expected `hh:mm{:ss}?`"
    );
}
