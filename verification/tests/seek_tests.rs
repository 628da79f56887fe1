use musicbot::seek::{from_min_sec, is_seek_position_readable, parse_seek_position, seek_reply};
use musicbot::timestamp::get_human_readable_timestamp;

#[test]
fn reads_minutes_and_seconds() {
    assert_eq!(parse_seek_position("1:30"), Some(90));
    assert_eq!(parse_seek_position("01:05"), Some(65));
    assert_eq!(parse_seek_position("0:00"), Some(0));
    assert_eq!(parse_seek_position("120:59"), Some(7259));
}

#[test]
fn accepts_what_parse_accepts() {
    assert_eq!(parse_seek_position("+2:+3"), Some(123));
    assert_eq!(parse_seek_position("1:30:45"), Some(90));
}

#[test]
fn refuses_bad_fields() {
    assert_eq!(parse_seek_position("1:60"), None);
    assert_eq!(parse_seek_position("a:10"), None);
    assert_eq!(parse_seek_position("1:"), None);
    assert_eq!(parse_seek_position(":30"), None);
    assert_eq!(parse_seek_position("-1:30"), None);
    assert_eq!(parse_seek_position("1:-3"), None);
    assert_eq!(parse_seek_position(" 1:30"), None);
    assert_eq!(parse_seek_position("abc"), None);
    assert_eq!(parse_seek_position("+:30"), None);
    assert_eq!(parse_seek_position("1:99999999999999999999"), None);
    assert_eq!(parse_seek_position("١:30"), None);
}

#[test]
fn readable_positions() {
    assert!(is_seek_position_readable("1:30"));
    assert!(is_seek_position_readable("abc"));
    assert!(is_seek_position_readable(""));
    assert!(!is_seek_position_readable("5"));
    assert!(!is_seek_position_readable("307445734561825861:0"));
    assert!(is_seek_position_readable("307445734561825860:15"));
}

#[test]
fn largest_position() {
    assert_eq!(parse_seek_position("307445734561825860:15"), Some(u64::MAX));
}

#[test]
fn min_sec_to_seconds() {
    assert_eq!(from_min_sec(2, 59), Some(179));
    assert_eq!(from_min_sec(0, 60), None);
    assert_eq!(from_min_sec(0, 0), Some(0));
}

#[test]
fn reply_names_the_position() {
    assert_eq!(seek_reply("1:30"), "Seeked the track to 1:30");
}

#[test]
fn shown_time_reads_back() {
    for secs in 0u64..3600 {
        let shown = get_human_readable_timestamp(secs);
        assert_eq!(parse_seek_position(&shown), Some(secs));
    }
}

#[test]
fn shown_time_from_an_hour_does_not_read_back() {
    assert_eq!(parse_seek_position(&get_human_readable_timestamp(3600)), Some(60));
}
