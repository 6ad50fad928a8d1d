use chrono::{Duration, TimeZone, Utc};
use crm::query::{is_days_back_possible, timestamp_is_valid, RawQueryRequest, User, id, ids_query, time_query, to_ts, tq, ts_days_before, QueryRequest, QueryRequestBuilder, TimeQuery, Timestamp};
use crm::text::push_decimal;
use crm::time::UtcDateTime;

fn utc(dt: chrono::DateTime<Utc>) -> UtcDateTime {
    UtcDateTime::from_timestamp(dt.timestamp(), dt.timestamp_subsec_nanos()).unwrap()
}

fn ts(y: i32, mo: u32, d: u32, h: u32, mi: u32, s: u32) -> Timestamp {
    let dt = Utc.with_ymd_and_hms(y, mo, d, h, mi, s).unwrap();
    Timestamp { seconds: dt.timestamp(), nanos: 0 }
}

#[test]
fn query_request_to_string_should_work() {
    let date = Utc.with_ymd_and_hms(2024, 1, 1, 0, 0, 0).unwrap();
    let query = QueryRequest::new_with_dt("created_at", utc(date), utc(date + Duration::days(1)));
    let sql = query.to_string();
    assert_eq!(
        sql,
        "SELECT email, name FROM user_stats WHERE created_at BETWEEN '2024-01-01 00:00:00' AND '2024-01-02 00:00:00'"
    );
}

#[test]
fn time_query_without_bounds_is_true() {
    assert_eq!(time_query("created_at", None, None), "TRUE");
}

#[test]
fn time_query_with_upper_bound_only() {
    let u = ts(2023, 5, 6, 7, 8, 9);
    assert_eq!(time_query("last_visited_at", None, Some(u)), "last_visited_at <= '2023-05-06 07:08:09'");
}

#[test]
fn time_query_with_lower_bound_only() {
    let l = ts(1999, 12, 31, 23, 59, 59);
    assert_eq!(time_query("created_at", Some(l), None), "created_at >= '1999-12-31 23:59:59'");
}

#[test]
fn time_query_with_both_bounds() {
    let l = ts(2024, 2, 28, 0, 0, 0);
    let u = ts(2024, 2, 29, 12, 30, 0);
    assert_eq!(
        time_query("created_at", Some(l), Some(u)),
        "created_at BETWEEN '2024-02-28 00:00:00' AND '2024-02-29 12:30:00'"
    );
}

#[test]
fn time_query_drops_nanoseconds() {
    let mut l = ts(2024, 1, 1, 0, 0, 0);
    l.nanos = 999_999_999;
    assert_eq!(time_query("t", Some(l), None), "t >= '2024-01-01 00:00:00'");
}

#[test]
fn ids_query_without_ids_is_true() {
    assert_eq!(ids_query("viewed_but_not_started", &[]), "TRUE");
}

#[test]
fn ids_query_lists_ids_as_debug_does() {
    let ids = [207348u32, 0, 7, u32::MAX];
    let s = ids_query("viewed_but_not_started", &ids);
    assert_eq!(s, "array[207348, 0, 7, 4294967295] && viewed_but_not_started");
    assert_eq!(s, format!("array{:?} && {}", &ids[..], "viewed_but_not_started"));
}

#[test]
fn decimal_matches_display() {
    for n in [0u32, 1, 9, 10, 99, 100, 12345, 1000000, u32::MAX] {
        let mut s = String::from("x");
        push_decimal(&mut s, n);
        assert_eq!(s, format!("x{}", n));
    }
}

#[test]
fn query_joins_time_windows_then_ids() {
    let w1 = TimeQuery { lower: Some(ts(2024, 1, 1, 0, 0, 0)), upper: None };
    let w2 = TimeQuery { lower: None, upper: Some(ts(2024, 3, 1, 10, 0, 0)) };
    let q = QueryRequestBuilder::default()
        .timestamp(("created_at".to_string(), w1))
        .timestamp(("last_visited_at".to_string(), w2))
        .id(("viewed_but_not_started".to_string(), id(&[124760872, 1776987229, 1944726278])))
        .build();
    assert_eq!(
        q.to_string(),
        "SELECT email, name FROM user_stats WHERE created_at >= '2024-01-01 00:00:00' AND last_visited_at <= '2024-03-01 10:00:00' AND array[124760872, 1776987229, 1944726278] && viewed_but_not_started"
    );
}

#[test]
fn query_without_ids_has_no_id_clause() {
    let w = TimeQuery { lower: None, upper: None };
    let q = QueryRequestBuilder::default().timestamp(("created_at".to_string(), w)).build();
    assert_eq!(q.to_string(), "SELECT email, name FROM user_stats WHERE TRUE");
}

#[test]
fn empty_id_list_is_still_joined() {
    let q = QueryRequestBuilder::default()
        .timestamp(("a".to_string(), TimeQuery { lower: None, upper: None }))
        .id(("b".to_string(), id(&[])))
        .id(("c".to_string(), id(&[5])))
        .build();
    assert_eq!(q.to_string(), "SELECT email, name FROM user_stats WHERE TRUE AND TRUE AND array[5] && c");
}

#[test]
fn later_window_for_a_column_replaces_earlier_one() {
    let first = TimeQuery { lower: Some(ts(2020, 1, 1, 0, 0, 0)), upper: None };
    let second = TimeQuery { lower: None, upper: Some(ts(2021, 1, 1, 0, 0, 0)) };
    let q = QueryRequestBuilder::default()
        .timestamp(("created_at".to_string(), first))
        .timestamp(("other".to_string(), TimeQuery { lower: None, upper: None }))
        .timestamp(("created_at".to_string(), second))
        .build();
    assert_eq!(
        q.to_string(),
        "SELECT email, name FROM user_stats WHERE created_at <= '2021-01-01 00:00:00' AND TRUE"
    );
}

#[test]
fn later_ids_for_a_column_replace_earlier_ones() {
    let q = QueryRequestBuilder::default()
        .timestamp(("t".to_string(), TimeQuery { lower: None, upper: None }))
        .id(("c".to_string(), id(&[1, 2])))
        .id(("c".to_string(), id(&[3])))
        .build();
    assert_eq!(q.to_string(), "SELECT email, name FROM user_stats WHERE TRUE AND array[3] && c");
}

#[test]
fn id_keeps_the_ids() {
    assert_eq!(id(&[1, 2, 3]).ids, vec![1, 2, 3]);
    assert!(id(&[]).ids.is_empty());
}

#[test]
fn ts_days_before_shifts_by_whole_days() {
    let now = utc(Utc.with_ymd_and_hms(2024, 1, 10, 5, 6, 7).unwrap());
    let r = ts_days_before(now, 9).unwrap();
    assert_eq!(r.seconds, ts(2024, 1, 1, 5, 6, 7).seconds);
    assert_eq!(r.nanos, 0);
    let r = ts_days_before(now, -1).unwrap();
    assert_eq!(r.seconds, ts(2024, 1, 11, 5, 6, 7).seconds);
}

#[test]
fn ts_days_before_refuses_leaving_the_range() {
    let now = UtcDateTime::from_timestamp(0, 5).unwrap();
    assert!(ts_days_before(now, 96_465_292).is_some());
    assert!(ts_days_before(now, 96_465_293).is_none());
    assert!(ts_days_before(now, i64::MAX).is_none());
    assert!(ts_days_before(now, i64::MIN).is_none());
}

#[test]
fn to_ts_is_days_before_now() {
    let before = Utc::now().timestamp();
    let t = to_ts(120).unwrap();
    let after = Utc::now().timestamp();
    assert!(before - 120 * 86400 <= t.seconds && t.seconds <= after - 120 * 86400);
    assert!(0 <= t.nanos && t.nanos < 1_000_000_000);
    assert!(to_ts(191_491_528).is_none());
    assert!(to_ts(100_000_000).is_none());
    assert!(to_ts(90_000_000).is_some());
}

#[test]
fn tq_keeps_which_bounds_are_given() {
    let q = tq(Some(120), None).unwrap();
    assert!(q.lower.is_some() && q.upper.is_none());
    let q = tq(None, Some(90)).unwrap();
    assert!(q.lower.is_none() && q.upper.is_some());
    let q = tq(None, None).unwrap();
    assert!(q.lower.is_none() && q.upper.is_none());
    let q = tq(Some(2), Some(1)).unwrap();
    assert!(q.lower.unwrap().seconds < q.upper.unwrap().seconds);
    assert!(tq(Some(191_000_000), None).is_none());
    assert!(tq(None, Some(100_000_000)).is_none());
}

#[test]
fn validity_of_timestamps() {
    assert!(timestamp_is_valid(Timestamp { seconds: 0, nanos: 0 }));
    assert!(!timestamp_is_valid(Timestamp { seconds: 0, nanos: -1 }));
    assert!(timestamp_is_valid(Timestamp { seconds: 59, nanos: 1_500_000_000 }));
    assert!(!timestamp_is_valid(Timestamp { seconds: 58, nanos: 1_500_000_000 }));
    assert!(!timestamp_is_valid(Timestamp { seconds: i64::MAX, nanos: 0 }));
    let bad = TimeQuery { lower: Some(Timestamp { seconds: i64::MIN, nanos: 0 }), upper: None };
    let q = QueryRequestBuilder::default().timestamp(("x".to_string(), bad)).build();
    assert!(!q.timestamps_valid());
    let good = TimeQuery { lower: Some(ts(2024, 1, 1, 0, 0, 0)), upper: None };
    let q = QueryRequestBuilder::default().timestamp(("x".to_string(), good)).build();
    assert!(q.timestamps_valid());
}

#[test]
fn raw_query_answer_passes_rows_through() {
    let req = RawQueryRequest { query: "SELECT 1".to_string() };
    let rows = vec![
        User { email: "a@x.org".to_string(), name: "A".to_string() },
        User { email: "b@x.org".to_string(), name: "B".to_string() },
    ];
    assert_eq!(req.answer(Some(rows.clone())).unwrap(), rows);
    assert_eq!(req.answer(Some(vec![])).unwrap(), vec![]);
}

#[test]
fn raw_query_answer_names_the_failed_statement() {
    let req = RawQueryRequest { query: "SELECT broken".to_string() };
    let err = req.answer(None).unwrap_err();
    assert_eq!(err.code, crm::send::StatusCode::Internal);
    assert_eq!(err.message, "Failed to query data: SELECT broken");
}

#[test]
fn time_query_cuts_fractions_never_rounds() {
    let a = Timestamp { seconds: 1_700_000_000, nanos: 0 };
    let b = Timestamp { seconds: 1_700_000_000, nanos: 999_999_999 };
    assert_eq!(time_query("c", Some(a), Some(b)), time_query("c", Some(b), Some(a)));
    assert_eq!(time_query("c", Some(b), None), "c >= '2023-11-14 22:13:20'");
}

#[test]
fn days_back_possible_bounds_every_clock_reading() {
    assert!(is_days_back_possible(0));
    assert!(is_days_back_possible(-95_026_236));
    assert!(!is_days_back_possible(-95_026_237));
    assert!(is_days_back_possible(191_491_528));
    assert!(!is_days_back_possible(191_491_529));
    assert!(!is_days_back_possible(i64::MAX));
    assert!(!is_days_back_possible(i64::MIN));
    let max = chrono::DateTime::<Utc>::MAX_UTC.timestamp();
    let min = chrono::DateTime::<Utc>::MIN_UTC.timestamp();
    assert!(max - 191_491_528 * 86400 >= min);
    assert!(max - 191_491_529 * 86400 < min);
    assert!(95_026_236 * 86400 <= max);
    assert!(95_026_237 * 86400 > max);
}
