use printer_actions::time_utils::Time;

fn brief(seconds: i64) -> String {
    Time::from_seconds(seconds).unwrap().to_human_readable_briefly()
}

#[test]
fn from_seconds_rejects_negative_and_too_many_hours() {
    assert!(Time::from_seconds(-1).is_none());
    assert!(Time::from_seconds(i64::MIN).is_none());
    assert!(Time::from_seconds(256 * 3600).is_none());
    assert!(Time::from_seconds(256 * 3600 - 1).is_some());
    assert!(Time::from_seconds(0).is_some());
}

#[test]
fn from_seconds_splits_hours_minutes_seconds() {
    assert_eq!(Time::from_seconds(3 * 3600 + 25 * 60 + 7), Time::from_seconds(12307));
    assert_ne!(Time::from_seconds(61), Time::from_seconds(60));
}

#[test]
fn brief_text_under_an_hour() {
    assert_eq!(brief(0), "0 minutes");
    assert_eq!(brief(59), "0 minutes");
    assert_eq!(brief(60), "1 minute");
    assert_eq!(brief(45 * 60 + 30), "45 minutes");
}

#[test]
fn brief_text_one_hour_rounds_minutes() {
    assert_eq!(brief(3600 + 60), "1 hour and 1 minute");
    assert_eq!(brief(3600 + 25 * 60), "1 hour and 20 minutes");
    assert_eq!(brief(3600 + 9 * 60), "1 hour and 0 minutes");
    assert_eq!(brief(3600), "1 hour and 0 minutes");
}

#[test]
fn brief_text_several_hours_rounds_minutes() {
    assert_eq!(brief(2 * 3600 + 60), "2 hours and 1 minute");
    assert_eq!(brief(2 * 3600 + 35 * 60 + 10), "2 hours and 30 minutes");
    assert_eq!(brief(255 * 3600 + 59 * 60 + 59), "255 hours and 50 minutes");
}
