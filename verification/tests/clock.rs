use cocktail_catalogue::clock::{utc_now, utc_timestamp_of, Timestamp};
use cocktail_catalogue::utils::{get_cur_time_unix, unix_seconds_of};
use std::time::{Duration, SystemTime, UNIX_EPOCH};

#[test]
fn unix_seconds_truncate_the_fraction() {
    assert_eq!(unix_seconds_of(Ok((1_600_000_000, 999_999_999))).unwrap(), 1_600_000_000);
    assert_eq!(unix_seconds_of(Ok((0, 0))).unwrap(), 0);
}

#[test]
fn unix_seconds_hand_on_the_clock_error() {
    let before = UNIX_EPOCH - Duration::from_secs(5);
    let err = before.duration_since(UNIX_EPOCH).unwrap_err();
    let got = unix_seconds_of(Err(err)).unwrap_err();
    assert_eq!(got.duration(), Duration::from_secs(5));
}

#[test]
fn unix_seconds_are_in_time_order() {
    let a = unix_seconds_of(Ok((10, 999_999_999))).unwrap();
    let b = unix_seconds_of(Ok((11, 0))).unwrap();
    assert!(a <= b);
}

#[test]
fn current_unix_time_matches_the_system_clock() {
    let before = SystemTime::now().duration_since(UNIX_EPOCH).unwrap().as_secs();
    let now = get_cur_time_unix().expect("the clock reads a time after 1970");
    let after = SystemTime::now().duration_since(UNIX_EPOCH).unwrap().as_secs();
    assert!(before <= now && now <= after);
    assert!(now > 1_577_836_800);
}

#[test]
fn utc_timestamp_of_a_reading() {
    assert_eq!(
        utc_timestamp_of(Ok((1_431_648_000, 5))),
        Some(Timestamp { secs: 1_431_648_000, nanos: 5 })
    );
    assert_eq!(utc_timestamp_of(Ok((u64::MAX, 0))), None);
    let err = (UNIX_EPOCH - Duration::from_secs(1)).duration_since(UNIX_EPOCH).unwrap_err();
    assert_eq!(utc_timestamp_of(Err(err)), None);
}

#[test]
fn utc_now_reads_the_clock() {
    let t = utc_now().expect("the clock reads a time after 1970");
    assert!(t.secs > 1_577_836_800);
    assert!(t.nanos < 1_000_000_000);
}

#[test]
fn utc_timestamp_of_follows_chrono_range() {
    let last = 8_210_266_876_799u64;
    assert_eq!(utc_timestamp_of(Ok((last, 999_999_999))), Some(Timestamp { secs: last as i64, nanos: 999_999_999 }));
    assert_eq!(utc_timestamp_of(Ok((last + 1, 0))), None);
    assert_eq!(utc_timestamp_of(Ok((1_600_000_000, 0))), Some(Timestamp { secs: 1_600_000_000, nanos: 0 }));
}

#[test]
fn utc_timestamp_of_leap_second_only_at_minute_end() {
    assert_eq!(utc_timestamp_of(Ok((59, 1_500_000_000))), Some(Timestamp { secs: 59, nanos: 1_500_000_000 }));
    assert_eq!(utc_timestamp_of(Ok((58, 1_500_000_000))), None);
    assert_eq!(utc_timestamp_of(Ok((59, 2_000_000_000))), None);
}
