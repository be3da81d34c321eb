use lool::logger::datetime::{format_epoch_seconds, noop_datetime, utc_current_time};
use lool::tui::validators::required_validator;

#[test]
fn epoch_formatting_is_exact() {
    assert_eq!(format_epoch_seconds(0), "1970-01-01 00:00:00");
    assert_eq!(format_epoch_seconds(86_399), "1970-01-01 23:59:59");
    assert_eq!(format_epoch_seconds(86_400), "1970-01-02 00:00:00");
    // a leap day
    assert_eq!(format_epoch_seconds(1_709_164_800), "2024-02-29 00:00:00");
    assert_eq!(format_epoch_seconds(1_700_000_000), "2023-11-14 22:13:20");
}

#[test]
fn datetime_stamps() {
    assert_eq!(noop_datetime(), "");
    // yyyy-mm-dd hh:mm:ss
    let now = utc_current_time();
    assert_eq!(now.len(), 19);
    assert_eq!(&now[4..5], "-");
    assert_eq!(&now[13..14], ":");
}

#[test]
fn required_validator_rejects_empty_input() {
    assert_eq!(required_validator("something"), Ok(()));
    assert_eq!(
        required_validator(""),
        Err(String::from("This field is required"))
    );
}
