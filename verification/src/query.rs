//! The user-statistics query: named time windows and id lists, built with a
//! builder, and the SQL statement that the service runs for them.

use vstd::prelude::*;

use crate::send::{Status, StatusCode};
use crate::text::{join, push_u32_list, u32_list_text};
use crate::time::{
    clock_reading, day_shift, plain_strftime, utc_accepts, utc_max_seconds, utc_min_seconds, utc_now, utc_strftime, UtcDateTime, UtcInstant,
};

verus! {

/// A point in time as the wire format carries it: seconds since the Unix
/// epoch and nanoseconds.
#[derive(Clone, Copy, Debug, PartialEq, Eq)]
pub struct Timestamp {
    pub seconds: i64,
    pub nanos: i32,
}

/// A time window on a column: an optional lower and an optional upper bound.
#[derive(Clone, Copy, Debug, PartialEq, Eq)]
pub struct TimeQuery {
    pub lower: Option<Timestamp>,
    pub upper: Option<Timestamp>,
}

/// A list of ids that a column of arrays must overlap.
#[derive(Clone, Debug, PartialEq, Eq)]
pub struct IdQuery {
    pub ids: Vec<u32>,
}

/// A query given as SQL text.
#[derive(Clone, Debug, PartialEq, Eq)]
pub struct RawQueryRequest {
    pub query: String,
}

/// A row of the user statistics: a user's address and name.
#[derive(Clone, Debug, PartialEq, Eq)]
pub struct User {
    pub email: String,
    pub name: String,
}

/// The message of a failed statement: the statement after a fixed prefix.
pub open spec fn query_failure_message(query: Seq<char>) -> Seq<char> {
    "Failed to query data: "@ + query
}

impl RawQueryRequest {
    /// The answer to the statement, given the rows that the database
    /// returned for it (`None` where running it failed): the rows as they
    /// came, or an internal failure that names the statement.
    pub fn answer(&self, rows: Option<Vec<User>>) -> (r: Result<Vec<User>, Status>)
        ensures
            r is Ok <==> rows is Some,
            rows matches Some(v) ==> r == Ok::<Vec<User>, Status>(v),
            r matches Err(status) ==> status.code == StatusCode::Internal && status.message@
                == query_failure_message(self.query@),
    {
        match rows {
            Some(v) => Ok(v),
            None => {
                let mut message = String::from_str("Failed to query data: ");
                message.append(self.query.as_str());
                Err(Status { code: StatusCode::Internal, message })
            },
        }
    }
}

/// What a query holds: time windows and id lists, each keyed by a column
/// name, in the order in which the columns were first given.
pub struct QueryView {
    pub timestamps: Seq<(Seq<char>, TimeQuery)>,
    pub ids: Seq<(Seq<char>, Seq<u32>)>,
}

/// No key occurs twice: the entries form a map from column names.
pub open spec fn keys_distinct<V>(s: Seq<(Seq<char>, V)>) -> bool {
    forall|i: int, j: int| 0 <= i < j < s.len() ==> #[trigger] s[i].0 != #[trigger] s[j].0
}

/// The entries with the value for `key` set: replaced in place where the key
/// is present, appended where it is not.
pub open spec fn upsert<V>(s: Seq<(Seq<char>, V)>, key: Seq<char>, value: V) -> Seq<(Seq<char>, V)> {
    if exists|i: int| 0 <= i < s.len() && #[trigger] s[i].0 == key {
        s.update(choose|i: int| 0 <= i < s.len() && #[trigger] s[i].0 == key, (key, value))
    } else {
        s.push((key, value))
    }
}

impl View for TimeQuery {
    type V = TimeQuery;

    open spec fn view(&self) -> TimeQuery {
        *self
    }
}

impl View for IdQuery {
    type V = Seq<u32>;

    open spec fn view(&self) -> Seq<u32> {
        self.ids@
    }
}

/// String-keyed entries as keys and values seen through their views.
pub open spec fn entries<V: View>(v: Seq<(String, V)>) -> Seq<(Seq<char>, V::V)> {
    v.map_values(|e: (String, V)| (e.0@, e.1@))
}

/// Sets the value for `key` in a vector of distinct-keyed entries.
fn upsert_entry<V: View>(v: &mut Vec<(String, V)>, key: String, value: V)
    requires
        keys_distinct(entries(old(v)@)),
    ensures
        entries(final(v)@) == upsert(entries(old(v)@), key@, value@),
        keys_distinct(entries(final(v)@)),
{
    let ghost e0 = entries(v@);
    let mut i: usize = 0;
    while i < v.len()
        invariant
            i <= v.len(),
            v@ == old(v)@,
            e0 == entries(v@),
            keys_distinct(e0),
            forall|k: int| 0 <= k < i ==> #[trigger] e0[k].0 != key@,
        decreases v.len() - i,
    {
        if v[i].0 == key {
            proof {
                assert(e0[i as int].0 == key@);
                let j = choose|j: int| 0 <= j < e0.len() && #[trigger] e0[j].0 == key@;
                assert(j == i as int);
            }
            v.set(i, (key, value));
            assert(entries(v@) =~= e0.update(i as int, (key@, value@)));
            return;
        }
        i = i + 1;
    }
    v.push((key, value));
    assert(entries(v@) =~= e0.push((key@, value@)));
}

/// A query on the user statistics: time windows and id lists, each keyed by
/// column name.
pub struct QueryRequest {
    timestamps: Vec<(String, TimeQuery)>,
    ids: Vec<(String, IdQuery)>,
}

impl View for QueryRequest {
    type V = QueryView;

    closed spec fn view(&self) -> QueryView {
        QueryView { timestamps: entries(self.timestamps@), ids: entries(self.ids@) }
    }
}

impl QueryRequest {
    #[verifier::type_invariant]
    closed spec fn inv(self) -> bool {
        keys_distinct(entries(self.timestamps@)) && keys_distinct(entries(self.ids@))
    }
}

/// Builds a `QueryRequest` one column at a time.
pub struct QueryRequestBuilder {
    timestamps: Vec<(String, TimeQuery)>,
    ids: Vec<(String, IdQuery)>,
}

impl View for QueryRequestBuilder {
    type V = QueryView;

    closed spec fn view(&self) -> QueryView {
        QueryView { timestamps: entries(self.timestamps@), ids: entries(self.ids@) }
    }
}

impl QueryRequestBuilder {
    #[verifier::type_invariant]
    closed spec fn inv(self) -> bool {
        keys_distinct(entries(self.timestamps@)) && keys_distinct(entries(self.ids@))
    }
}

impl Default for QueryRequestBuilder {
    /// A builder with no columns.
    fn default() -> (b: QueryRequestBuilder)
        ensures
            b@.timestamps == Seq::<(Seq<char>, TimeQuery)>::empty(),
            b@.ids == Seq::<(Seq<char>, Seq<u32>)>::empty(),
    {
        let b = QueryRequestBuilder { timestamps: Vec::new(), ids: Vec::new() };
        assert(entries(b.timestamps@) =~= Seq::<(Seq<char>, TimeQuery)>::empty());
        assert(entries(b.ids@) =~= Seq::<(Seq<char>, Seq<u32>)>::empty());
        b
    }
}

impl QueryRequestBuilder {
    /// Sets the time window of a column, replacing any window given before
    /// for the same column.
    pub fn timestamp(self, entry: (String, TimeQuery)) -> (b: QueryRequestBuilder)
        ensures
            b@.timestamps == upsert(self@.timestamps, entry.0@, entry.1),
            b@.ids == self@.ids,
    {
        proof {
            use_type_invariant(&self);
        }
        let QueryRequestBuilder { mut timestamps, ids } = self;
        upsert_entry(&mut timestamps, entry.0, entry.1);
        QueryRequestBuilder { timestamps, ids }
    }

    /// Sets the id list of a column, replacing any list given before for the
    /// same column.
    pub fn id(self, entry: (String, IdQuery)) -> (b: QueryRequestBuilder)
        ensures
            b@.ids == upsert(self@.ids, entry.0@, entry.1@),
            b@.timestamps == self@.timestamps,
    {
        proof {
            use_type_invariant(&self);
        }
        let QueryRequestBuilder { timestamps, mut ids } = self;
        upsert_entry(&mut ids, entry.0, entry.1);
        QueryRequestBuilder { timestamps, ids }
    }

    /// The query with the columns given so far.
    pub fn build(self) -> (q: QueryRequest)
        ensures
            q@ == self@,
            keys_distinct(q@.timestamps),
            keys_distinct(q@.ids),
    {
        proof {
            use_type_invariant(&self);
        }
        let QueryRequestBuilder { timestamps, ids } = self;
        QueryRequest { timestamps, ids }
    }
}

/// The `strftime` pattern of the dates in the SQL text.
pub open spec fn sql_datetime_pattern() -> Seq<char> {
    "%Y-%m-%d %H:%M:%S"@
}

/// `chrono` accepts the timestamp as an instant (with its nanoseconds read
/// as unsigned).
pub open spec fn timestamp_valid(ts: Timestamp) -> bool {
    utc_accepts(ts.seconds as int, ts.nanos as int)
}

/// Both bounds of a window, where present, are valid timestamps.
pub open spec fn time_query_valid(t: TimeQuery) -> bool {
    &&& (t.lower matches Some(l) ==> timestamp_valid(l))
    &&& (t.upper matches Some(u) ==> timestamp_valid(u))
}

/// The date of a timestamp as the SQL text writes it: `chrono`'s text for
/// its instant, which for an instant that is not a leap second is the text
/// of its whole second (the fraction of a second is dropped).
pub open spec fn sql_datetime(ts: Timestamp) -> Seq<char> {
    if ts.nanos < 1_000_000_000 {
        utc_strftime(ts.seconds as int, 0, sql_datetime_pattern())
    } else {
        utc_strftime(ts.seconds as int, ts.nanos as int, sql_datetime_pattern())
    }
}

/// The condition of a time window on a column: `TRUE` without bounds, a
/// comparison with one bound, `BETWEEN` with both.
pub open spec fn time_clause(name: Seq<char>, lower: Option<Timestamp>, upper: Option<Timestamp>) -> Seq<char> {
    match (lower, upper) {
        (None, None) => "TRUE"@,
        (None, Some(u)) => name + " <= '"@ + sql_datetime(u) + "'"@,
        (Some(l), None) => name + " >= '"@ + sql_datetime(l) + "'"@,
        (Some(l), Some(u)) => name + " BETWEEN '"@ + sql_datetime(l) + "' AND '"@ + sql_datetime(u) + "'"@,
    }
}

/// The condition of an id list on a column of arrays: `TRUE` for no ids,
/// else that the array literal overlaps the column.
pub open spec fn id_clause(name: Seq<char>, ids: Seq<u32>) -> Seq<char> {
    if ids.len() == 0 {
        "TRUE"@
    } else {
        "array"@ + u32_list_text(ids) + " && "@ + name
    }
}

/// The start of every statement.
pub open spec fn sql_prefix() -> Seq<char> {
    "SELECT email, name FROM user_stats WHERE "@
}

/// The conditions of the time windows, joined by `AND`.
pub open spec fn time_part(ts: Seq<(Seq<char>, TimeQuery)>) -> Seq<char> {
    join(ts.map_values(|e: (Seq<char>, TimeQuery)| time_clause(e.0, e.1.lower, e.1.upper)), " AND "@)
}

/// The conditions of the id lists, joined by `AND`.
pub open spec fn id_part(ids: Seq<(Seq<char>, Seq<u32>)>) -> Seq<char> {
    join(ids.map_values(|e: (Seq<char>, Seq<u32>)| id_clause(e.0, e.1)), " AND "@)
}

/// The statement for a query: the prefix, the time conditions, and, where
/// the query has id lists, `AND` and their conditions.
pub open spec fn query_sql(q: QueryView) -> Seq<char> {
    sql_prefix() + time_part(q.timestamps) + if q.ids.len() == 0 {
        Seq::empty()
    } else {
        " AND "@ + id_part(q.ids)
    }
}

/// Every time window of the query has valid bounds.
pub open spec fn query_valid(q: QueryView) -> bool {
    forall|i: int| 0 <= i < q.timestamps.len() ==> time_query_valid(#[trigger] q.timestamps[i].1)
}

/// The SQL date pattern uses only the plain fields.
pub proof fn lemma_sql_pattern_plain()
    ensures
        plain_strftime(sql_datetime_pattern()),
{
    reveal_strlit("%Y-%m-%d %H:%M:%S");
    let p = sql_datetime_pattern();
    assert forall|i: int| 0 <= i < p.len() && #[trigger] p[i] == '%' implies i + 1 < p.len()
        && crate::time::strftime_field(p[i + 1]) by {
        assert(i == 0 || i == 3 || i == 6 || i == 9 || i == 12 || i == 15);
    }
}

/// Whether `chrono` accepts the timestamp as an instant.
pub fn timestamp_is_valid(ts: Timestamp) -> (b: bool)
    ensures
        b == timestamp_valid(ts),
{
    ts.nanos >= 0 && UtcDateTime::from_timestamp(ts.seconds, ts.nanos as u32).is_some()
}

/// The instant of a valid timestamp.
pub fn ts_to_utc(ts: Timestamp) -> (t: UtcDateTime)
    requires
        timestamp_valid(ts),
    ensures
        t@ == (UtcInstant { seconds: ts.seconds as int, nanos: ts.nanos as int }),
{
    UtcDateTime::from_timestamp(ts.seconds, ts.nanos as u32).unwrap()
}

fn sql_date(ts: Timestamp) -> (s: String)
    requires
        timestamp_valid(ts),
    ensures
        s@ == sql_datetime(ts),
{
    proof {
        lemma_sql_pattern_plain();
    }
    ts_to_utc(ts).format("%Y-%m-%d %H:%M:%S")
}

/// The condition of a time window on the column `name`.
pub fn time_query(name: &str, lower: Option<Timestamp>, upper: Option<Timestamp>) -> (s: String)
    requires
        lower matches Some(l) ==> timestamp_valid(l),
        upper matches Some(u) ==> timestamp_valid(u),
    ensures
        s@ == time_clause(name@, lower, upper),
{
    if lower.is_none() && upper.is_none() {
        return String::from_str("TRUE");
    }
    if lower.is_none() {
        let upper = sql_date(upper.unwrap());
        let mut s = String::from_str(name);
        s.append(" <= '");
        s.append(upper.as_str());
        s.append("'");
        return s;
    }
    if upper.is_none() {
        let lower = sql_date(lower.unwrap());
        let mut s = String::from_str(name);
        s.append(" >= '");
        s.append(lower.as_str());
        s.append("'");
        return s;
    }
    let lower = sql_date(lower.unwrap());
    let upper = sql_date(upper.unwrap());
    let mut s = String::from_str(name);
    s.append(" BETWEEN '");
    s.append(lower.as_str());
    s.append("' AND '");
    s.append(upper.as_str());
    s.append("'");
    s
}

/// The condition of an id list on the column `name`.
pub fn ids_query(name: &str, ids: &[u32]) -> (s: String)
    ensures
        s@ == id_clause(name@, ids@),
{
    if ids.len() == 0 {
        return String::from_str("TRUE");
    }
    let mut s = String::from_str("array");
    push_u32_list(&mut s, ids);
    s.append(" && ");
    s.append(name);
    s
}

impl QueryRequest {
    /// Whether every bound of every time window is a valid timestamp, as
    /// `to_string` needs.
    pub fn timestamps_valid(&self) -> (b: bool)
        ensures
            b == query_valid(self@),
    {
        let mut i: usize = 0;
        while i < self.timestamps.len()
            invariant
                i <= self.timestamps.len(),
                self@.timestamps == entries(self.timestamps@),
                forall|k: int| 0 <= k < i ==> time_query_valid(#[trigger] self@.timestamps[k].1),
            decreases self.timestamps.len() - i,
        {
            let w = self.timestamps[i].1;
            assert(self@.timestamps[i as int].1 == w);
            if let Some(l) = w.lower {
                if !timestamp_is_valid(l) {
                    return false;
                }
            }
            if let Some(u) = w.upper {
                if !timestamp_is_valid(u) {
                    return false;
                }
            }
            i = i + 1;
        }
        true
    }

    /// The SQL statement that selects the email and name of the users that
    /// meet every condition of the query.
    pub fn to_string(&self) -> (sql: String)
        requires
            query_valid(self@),
        ensures
            sql@ == query_sql(self@),
    {
        let ghost tparts = self@.timestamps.map_values(
            |e: (Seq<char>, TimeQuery)| time_clause(e.0, e.1.lower, e.1.upper),
        );
        let mut sql = String::from_str("SELECT email, name FROM user_stats WHERE ");
        let mut i: usize = 0;
        while i < self.timestamps.len()
            invariant
                i <= self.timestamps.len(),
                self@.timestamps == entries(self.timestamps@),
                query_valid(self@),
                tparts.len() == self.timestamps.len(),
                forall|k: int| 0 <= k < tparts.len() ==> #[trigger] tparts[k] == time_clause(
                    self@.timestamps[k].0, self@.timestamps[k].1.lower, self@.timestamps[k].1.upper),
                sql@ == sql_prefix() + join(tparts.take(i as int), " AND "@),
            decreases self.timestamps.len() - i,
        {
            if i > 0 {
                sql.append(" AND ");
            }
            let entry = &self.timestamps[i];
            assert(self@.timestamps[i as int] == (entry.0@, entry.1));
            assert(time_query_valid(self@.timestamps[i as int].1));
            let clause = time_query(entry.0.as_str(), entry.1.lower, entry.1.upper);
            sql.append(clause.as_str());
            assert(tparts.take(i + 1).drop_last() =~= tparts.take(i as int));
            i = i + 1;
        }
        assert(tparts.take(self.timestamps.len() as int) =~= tparts);
        if self.ids.len() > 0 {
            let ghost iparts = self@.ids.map_values(|e: (Seq<char>, Seq<u32>)| id_clause(e.0, e.1));
            let mut id_str = String::new();
            let mut j: usize = 0;
            while j < self.ids.len()
                invariant
                    j <= self.ids.len(),
                    self@.ids == entries(self.ids@),
                    iparts.len() == self.ids.len(),
                    forall|k: int| 0 <= k < iparts.len() ==> #[trigger] iparts[k] == id_clause(
                        self@.ids[k].0, self@.ids[k].1),
                    id_str@ == join(iparts.take(j as int), " AND "@),
                decreases self.ids.len() - j,
            {
                if j > 0 {
                    id_str.append(" AND ");
                }
                let entry = &self.ids[j];
                assert(self@.ids[j as int] == (entry.0@, entry.1.ids@));
                let clause = ids_query(entry.0.as_str(), entry.1.ids.as_slice());
                id_str.append(clause.as_str());
                assert(iparts.take(j + 1).drop_last() =~= iparts.take(j as int));
                j = j + 1;
            }
            assert(iparts.take(self.ids.len() as int) =~= iparts);
            sql.append(" AND ");
            sql.append(id_str.as_str());
        }
        sql
    }
}

/// A timestamp at a whole second.
pub open spec fn whole_second(seconds: int) -> Timestamp {
    Timestamp { seconds: seconds as i64, nanos: 0 }
}

/// The query with one time window, on `name`, from the second `lower` to the
/// second `upper`, and no id lists.
pub open spec fn window_query(name: Seq<char>, lower: int, upper: int) -> QueryView {
    QueryView {
        timestamps: seq![
            (name, TimeQuery { lower: Some(whole_second(lower)), upper: Some(whole_second(upper)) }),
        ],
        ids: Seq::empty(),
    }
}

impl QueryRequest {
    /// The query for the users whose column `name` lies between the two
    /// instants, taken at their whole seconds.
    pub fn new_with_dt(name: &str, lower: UtcDateTime, upper: UtcDateTime) -> (q: QueryRequest)
        ensures
            q@ == window_query(name@, lower@.seconds, upper@.seconds),
    {
        let ts = Timestamp { seconds: lower.timestamp(), nanos: 0 };
        let ts1 = Timestamp { seconds: upper.timestamp(), nanos: 0 };
        let tq = TimeQuery { lower: Some(ts), upper: Some(ts1) };
        let b = QueryRequestBuilder::default();
        let b = b.timestamp((String::from_str(name), tq));
        let q = b.build();
        assert(q@.timestamps =~= window_query(name@, lower@.seconds, upper@.seconds).timestamps);
        assert(q@.ids =~= Seq::<(Seq<char>, Seq<u32>)>::empty());
        q
    }
}

/// The statement for a single time window between two representable
/// seconds: the prefix and one `BETWEEN` condition, whose dates are
/// `chrono`'s text for the two whole seconds under the SQL pattern, the text
/// that `format` renders for any instant in those seconds that is not a
/// leap second.
pub proof fn lemma_window_sql(name: Seq<char>, lower: int, upper: int)
    requires
        utc_accepts(lower, 0),
        utc_accepts(upper, 0),
    ensures
        query_valid(window_query(name, lower, upper)),
        query_sql(window_query(name, lower, upper)) == sql_prefix() + name + " BETWEEN '"@
            + sql_datetime(whole_second(lower)) + "' AND '"@ + sql_datetime(whole_second(upper))
            + "'"@,
        query_sql(window_query(name, lower, upper)) == sql_prefix() + name + " BETWEEN '"@
            + utc_strftime(lower, 0, sql_datetime_pattern()) + "' AND '"@ + utc_strftime(
            upper,
            0,
            sql_datetime_pattern(),
        ) + "'"@,
{
    let q = window_query(name, lower, upper);
    let parts = q.timestamps.map_values(
        |e: (Seq<char>, TimeQuery)| time_clause(e.0, e.1.lower, e.1.upper),
    );
    assert(parts.len() == 1);
    assert(join(parts, " AND "@) == parts[0]);
}

/// Two bounds of a time window that are both absent, or that lie in the
/// same second with neither of them a leap second.
pub open spec fn same_second_bound(a: Option<Timestamp>, b: Option<Timestamp>) -> bool {
    match (a, b) {
        (None, None) => true,
        (Some(x), Some(y)) => x.seconds == y.seconds && 0 <= x.nanos < 1_000_000_000 && 0 <= y.nanos
            < 1_000_000_000,
        _ => false,
    }
}

/// The condition of a time window drops the fraction of a second of each
/// bound (it is cut off, never rounded): windows whose bounds lie in the same
/// seconds, none of them a leap second, give the same condition.
pub proof fn lemma_time_clause_drops_subsecond(
    name: Seq<char>,
    lower1: Option<Timestamp>,
    lower2: Option<Timestamp>,
    upper1: Option<Timestamp>,
    upper2: Option<Timestamp>,
)
    requires
        same_second_bound(lower1, lower2),
        same_second_bound(upper1, upper2),
    ensures
        time_clause(name, lower1, upper1) == time_clause(name, lower2, upper2),
{
}

/// The id list of the given ids.
pub fn id(ids: &[u32]) -> (q: IdQuery)
    ensures
        q@ == ids@,
{
    IdQuery { ids: vstd::slice::slice_to_vec(ids) }
}

/// The timestamp `days` days before the instant `now`, as `chrono` shifts
/// it (see `day_shift`); `None` where it falls outside the range that
/// `chrono` represents.
pub fn ts_days_before(now: UtcDateTime, days: i64) -> (r: Option<Timestamp>)
    ensures
        r is Some <==> utc_accepts(day_shift(now@, -days).seconds, day_shift(now@, -days).nanos),
        r matches Some(ts) ==> ts.seconds == day_shift(now@, -days).seconds && ts.nanos
            == day_shift(now@, -days).nanos,
        r matches Some(ts) ==> timestamp_valid(ts),
{
    match now.checked_sub_days(days) {
        Some(t) => {
            let seconds = t.timestamp();
            let nanos = t.timestamp_subsec_nanos();
            Some(Timestamp { seconds, nanos: nanos as i32 })
        },
        None => None,
    }
}

/// The largest number of days that can be taken back from any instant
/// since the Unix epoch and stay in `chrono`'s range.
pub open spec fn safe_days_back() -> int {
    -utc_min_seconds() / 86400
}

/// The timestamp is `days` days before some reading of the system clock.
pub open spec fn days_before_clock(ts: Timestamp, days: int) -> bool {
    exists|now: UtcInstant| #[trigger] clock_reading(now) && ts.seconds == now.seconds - 86400 * days
        && ts.nanos == now.nanos
}

/// For some reading of the system clock, the instant `days` days before it
/// leaves the range that `chrono` represents.
pub open spec fn days_out_of_range_for_clock(days: int) -> bool {
    exists|now: UtcInstant| #[trigger] clock_reading(now) && !utc_accepts(
        now.seconds - 86400 * days,
        now.nanos,
    )
}

/// Some reading of the system clock, from the Unix epoch to the last second
/// that `chrono` represents, lies `days` days after a second that `chrono`
/// represents. For any other count, going back `days` days leaves
/// `chrono`'s range whatever the clock reads.
pub open spec fn days_back_possible(days: int) -> bool {
    &&& -86400 * days <= utc_max_seconds()
    &&& utc_min_seconds() <= utc_max_seconds() - 86400 * days
}

/// Whether going back `days` days can stay in `chrono`'s range for some
/// reading of the system clock (see `days_back_possible`).
pub fn is_days_back_possible(days: i64) -> (b: bool)
    ensures
        b == days_back_possible(days as int),
{
    -95026236 <= days && days <= 191491528
}

/// The timestamp `days` days before now, read from the system clock; `None`
/// where it falls outside the range that `chrono` represents, which never
/// happens for a number of days from 0 to `safe_days_back()`. A count for
/// which every reading of the clock leaves the range is not taken (see
/// `days_back_possible`).
pub fn to_ts(days: i64) -> (r: Option<Timestamp>)
    requires
        days_back_possible(days as int),
    ensures
        r matches Some(ts) ==> timestamp_valid(ts) && ts.nanos < 1_000_000_000,
        r matches Some(ts) ==> days_before_clock(ts, days as int),
        r is None ==> days_out_of_range_for_clock(days as int),
        0 <= days <= safe_days_back() ==> r is Some,
{
    let now = utc_now();
    let r = ts_days_before(now, days);
    proof {
        assert(clock_reading(now@));
        if let Some(ts) = r {
            assert(ts.nanos == now@.nanos);
        }
    }
    r
}

/// The time window from `lower` days ago to `upper` days ago, each bound
/// present where it is given and taken from its own reading of the system
/// clock (see `to_ts`); `None` where a bound falls outside the range that
/// `chrono` represents. Each count given must pass `days_back_possible`.
pub fn tq(lower: Option<i64>, upper: Option<i64>) -> (r: Option<TimeQuery>)
    requires
        lower matches Some(d) ==> days_back_possible(d as int),
        upper matches Some(d) ==> days_back_possible(d as int),
    ensures
        r matches Some(q) ==> {
            &&& (q.lower is Some <==> lower is Some)
            &&& (q.upper is Some <==> upper is Some)
            &&& (lower matches Some(d) ==> q.lower matches Some(ts) && days_before_clock(ts, d as int))
            &&& (upper matches Some(d) ==> q.upper matches Some(ts) && days_before_clock(ts, d as int))
            &&& time_query_valid(q)
        },
        r is None ==> (lower matches Some(d) && days_out_of_range_for_clock(d as int)) || (
        upper matches Some(d) && days_out_of_range_for_clock(d as int)),
        (lower matches Some(d) ==> 0 <= d <= safe_days_back()) && (upper matches Some(d) ==> 0 <= d
            <= safe_days_back()) ==> r is Some,
{
    let lo = match lower {
        Some(d) => match to_ts(d) {
            Some(ts) => Some(ts),
            None => return None,
        },
        None => None,
    };
    let hi = match upper {
        Some(d) => match to_ts(d) {
            Some(ts) => Some(ts),
            None => return None,
        },
        None => None,
    };
    Some(TimeQuery { lower: lo, upper: hi })
}

} // verus!
