use chrono::TimeZone;
use chrono::Utc;
use data_processor::date_util::date_to_tms2000;
use data_processor::date_util::date_to_tms2000_div1000;
use data_processor::date_util::thirty_minutes_since_last_tms2000div1000;
use data_processor::date_util::tms2000_to_date;
use data_processor::date_util::tms2000_to_timestamp;
use data_processor::date_util::tms2000div1000_to_date;

fn unix(year: i32, month: u32, day: u32, hour: u32, min: u32, sec: u32) -> i64 {
    Utc.with_ymd_and_hms(year, month, day, hour, min, sec)
        .unwrap()
        .timestamp()
}

#[test]
fn test_date_to_tms2000() {
    assert_eq!(date_to_tms2000(unix(2000, 2, 1, 0, 0, 0)), 0);
    assert_eq!(date_to_tms2000(unix(2024, 7, 25, 19, 0, 3)), 429206);
}

#[test]
fn test_tms2000_to_date() {
    assert_eq!(tms2000_to_date(0), unix(2000, 2, 1, 0, 0, 0));
    assert_eq!(tms2000_to_date(429206), unix(2024, 7, 25, 19, 0, 0));
}

#[test]
fn test_tms2000_to_timestamp() {
    assert_eq!(tms2000_to_timestamp(0), 949363200);
    assert_eq!(tms2000_to_timestamp(429206), 1721934000);
}

#[test]
fn test_date_to_tms2000_div1000() {
    assert_eq!(date_to_tms2000_div1000(unix(2000, 2, 1, 0, 0, 0)), 0);
    assert_eq!(date_to_tms2000_div1000(unix(2024, 7, 25, 19, 0, 3)), 429);
}

#[test]
fn test_tms2000div1000_to_date() {
    assert_eq!(tms2000div1000_to_date(0), unix(2000, 2, 1, 0, 0, 0));
    assert_eq!(tms2000div1000_to_date(429), unix(2024, 7, 21, 12, 0, 0));
}

#[test]
fn test_thirty_minutes_since_last_tms2000div1000() {
    assert_eq!(
        thirty_minutes_since_last_tms2000div1000(unix(2000, 2, 1, 0, 0, 0)),
        0
    );
    assert_eq!(
        thirty_minutes_since_last_tms2000div1000(unix(2000, 2, 1, 0, 30, 0)),
        1
    );
    assert_eq!(
        thirty_minutes_since_last_tms2000div1000(unix(2000, 2, 1, 1, 0, 0)),
        2
    );
    assert_eq!(
        thirty_minutes_since_last_tms2000div1000(unix(2000, 2, 1, 0, 0, 0)),
        0
    );
    assert_eq!(
        thirty_minutes_since_last_tms2000div1000(unix(2024, 7, 21, 12, 0, 0)),
        0
    );
    assert_eq!(
        thirty_minutes_since_last_tms2000div1000(unix(2024, 7, 22, 12, 0, 0)),
        48
    );
}
