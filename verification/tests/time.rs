use chrono::{TimeZone, Utc};
use crm::query::{time_query, to_ts, ts_days_before, Timestamp};
use crm::time::UtcDateTime;

#[test]
fn from_timestamp_accepts_exactly_chronos_range() {
    let min = -8334601228800i64;
    let max = 8210266876799i64;
    assert!(UtcDateTime::from_timestamp(min, 0).is_some());
    assert!(UtcDateTime::from_timestamp(min - 1, 999_999_999).is_none());
    assert!(UtcDateTime::from_timestamp(max, 999_999_999).is_some());
    assert!(UtcDateTime::from_timestamp(max + 1, 0).is_none());
    assert_eq!(chrono::DateTime::<Utc>::MIN_UTC.timestamp(), min);
    assert_eq!(chrono::DateTime::<Utc>::MAX_UTC.timestamp(), max);
}

#[test]
fn from_timestamp_agrees_with_chrono() {
    let seconds = [
        i64::MIN, -8334601228801, -8334601228800, -8334601228741, -61, -60, -1, 0, 1, 59, 119,
        1_700_000_039, 8210266876739, 8210266876799, 8210266876800, i64::MAX,
    ];
    let nanos = [0u32, 1, 999_999_999, 1_000_000_000, 1_500_000_000, 1_999_999_999, 2_000_000_000, u32::MAX];
    for &s in &seconds {
        for &n in &nanos {
            let ours = UtcDateTime::from_timestamp(s, n).map(|t| (t.timestamp(), t.timestamp_subsec_nanos()));
            let theirs = chrono::DateTime::from_timestamp(s, n).map(|t| (t.timestamp(), t.timestamp_subsec_nanos()));
            assert_eq!(ours, theirs, "seconds {} nanos {}", s, n);
        }
    }
}

#[test]
fn from_timestamp_takes_leap_seconds_only_after_second_59() {
    assert!(UtcDateTime::from_timestamp(59, 1_500_000_000).is_some());
    assert!(UtcDateTime::from_timestamp(-1, 1_500_000_000).is_some());
    assert!(UtcDateTime::from_timestamp(58, 1_000_000_000).is_none());
    assert!(UtcDateTime::from_timestamp(59, 2_000_000_000).is_none());
    let t = UtcDateTime::from_timestamp(119, 1_999_999_999).unwrap();
    assert_eq!(t.timestamp(), 119);
    assert_eq!(t.timestamp_subsec_nanos(), 1_999_999_999);
}

#[test]
fn day_shifts_move_whole_days() {
    let t = UtcDateTime::from_timestamp(1_000_000, 42).unwrap();
    let earlier = ts_days_before(t, 3).unwrap();
    assert_eq!(earlier, Timestamp { seconds: 1_000_000 - 3 * 86400, nanos: 42 });
    let later = ts_days_before(t, -2).unwrap();
    assert_eq!(later, Timestamp { seconds: 1_000_000 + 2 * 86400, nanos: 42 });
    let edge = UtcDateTime::from_timestamp(8210266876799 - 86400, 0).unwrap();
    assert!(ts_days_before(edge, -1).is_some());
    assert!(ts_days_before(edge, -2).is_none());
    assert!(ts_days_before(t, i64::MAX).is_none());
}

#[test]
fn dates_are_written_as_chrono_writes_them() {
    let dt = Utc.with_ymd_and_hms(2024, 7, 4, 9, 5, 3).unwrap();
    let ts = Timestamp { seconds: dt.timestamp(), nanos: 0 };
    assert_eq!(time_query("c", Some(ts), None), "c >= '2024-07-04 09:05:03'");
    let far = Timestamp { seconds: -8334601228800, nanos: 0 };
    let expected = format!("c >= '{}'", chrono::DateTime::<Utc>::MIN_UTC.format("%Y-%m-%d %H:%M:%S"));
    assert_eq!(time_query("c", Some(far), None), expected);
    let leap = Timestamp { seconds: 1_483_228_799, nanos: 1_500_000_000 };
    let chrono_leap = chrono::DateTime::from_timestamp(1_483_228_799, 1_500_000_000).unwrap();
    assert_eq!(
        time_query("c", None, Some(leap)),
        format!("c <= '{}'", chrono_leap.format("%Y-%m-%d %H:%M:%S"))
    );
}

#[test]
fn now_is_after_the_epoch_and_not_a_leap_second() {
    let t = to_ts(0).unwrap();
    assert!(t.seconds > 1_700_000_000);
    assert!(0 <= t.nanos && t.nanos < 1_000_000_000);
}

#[test]
fn day_shifts_of_a_leap_second_follow_chrono() {
    let leap = UtcDateTime::from_timestamp(59, 1_500_000_000).unwrap();
    let chrono_leap = chrono::DateTime::from_timestamp(59, 1_500_000_000).unwrap();
    for days in [-3i64, -1, 0, 1, 2] {
        let ours = ts_days_before(leap, days).unwrap();
        let theirs = chrono_leap.checked_sub_signed(chrono::TimeDelta::days(days)).unwrap();
        assert_eq!(ours, Timestamp { seconds: theirs.timestamp(), nanos: theirs.timestamp_subsec_nanos() as i32 });
    }
    assert_eq!(ts_days_before(leap, 1).unwrap(), Timestamp { seconds: 60 - 86400, nanos: 500_000_000 });
    assert_eq!(ts_days_before(leap, -1).unwrap(), Timestamp { seconds: 59 + 86400, nanos: 500_000_000 });
    assert_eq!(ts_days_before(leap, 0).unwrap(), Timestamp { seconds: 59, nanos: 1_500_000_000 });
}
