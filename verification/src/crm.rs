//! The CRM front service: its user endpoints and the query with which it
//! greets the users who signed up a given number of days ago.

use vstd::prelude::*;

use crate::fakes::uuid_v4_text;
use crate::metadata::Content;
use crate::query::{days_back_possible, lemma_window_sql, query_valid, safe_days_back, window_query, QueryRequest, QueryView};
use crate::send::{contents_body, Msg, SendRequest};
use crate::time::{clock_reading, day_shift, utc_accepts, utc_now, UtcDateTime, UtcInstant};

verus! {

/// A user of the CRM.
#[derive(Clone, Debug, PartialEq, Eq)]
pub struct User {
    pub id: u64,
    pub name: String,
    pub email: String,
}

impl User {
    /// The user with the given id, name and e-mail address.
    pub fn new(id: u64, name: &str, email: &str) -> (u: User)
        ensures
            u.id == id,
            u.name@ == name@,
            u.email@ == email@,
    {
        User { id, name: String::from_str(name), email: String::from_str(email) }
    }
}

impl Default for User {
    /// The empty user: id 0, no name, no address.
    fn default() -> (u: User)
        ensures
            u.id == 0,
            u.name@ == Seq::<char>::empty(),
            u.email@ == Seq::<char>::empty(),
    {
        User { id: 0, name: String::new(), email: String::new() }
    }
}

/// A request for the user with an id.
#[derive(Clone, Copy, Debug, PartialEq, Eq)]
pub struct GetUserRequest {
    pub id: u64,
}

/// A request to create a user.
#[derive(Clone, Debug, PartialEq, Eq)]
pub struct CreateUserRequest {
    pub name: String,
    pub email: String,
}

/// The user endpoints of the CRM.
#[derive(Clone, Copy, Debug, Default, PartialEq, Eq)]
pub struct UserServer;

impl UserServer {
    /// The answer to a user lookup: the empty user, whatever the id.
    pub fn get_user(&self, request: GetUserRequest) -> (u: User)
        ensures
            u.id == 0,
            u.name@ == Seq::<char>::empty(),
            u.email@ == Seq::<char>::empty(),
    {
        User::default()
    }

    /// The answer to a user creation: the user with id 1 and the requested
    /// name and address.
    pub fn create_user(&self, request: CreateUserRequest) -> (u: User)
        ensures
            u.id == 1,
            u.name@ == request.name@,
            u.email@ == request.email@,
    {
        User::new(1, request.name.as_str(), request.email.as_str())
    }
}

/// A request to welcome the users who signed up `interval` days ago with
/// the given contents.
#[derive(Clone, Debug, PartialEq, Eq)]
pub struct WelcomeRequest {
    pub id: String,
    pub interval: u32,
    pub content_ids: Vec<u32>,
}

/// The answer to a welcome request: the request's id.
#[derive(Clone, Debug, PartialEq, Eq)]
pub struct WelcomeResponse {
    pub id: String,
}

impl WelcomeRequest {
    /// The answer to this request once its e-mails are handed on: the
    /// request's id.
    pub fn response(&self) -> (r: WelcomeResponse)
        ensures
            r.id == self.id,
    {
        WelcomeResponse { id: self.id.clone() }
    }
}

/// The subject of a welcome e-mail.
pub open spec fn welcome_subject() -> Seq<char> {
    "Welcome"@
}

/// The e-mail that welcomes one user: a fresh UUID as its id, the welcome
/// subject, the sender, the user's address as its one recipient, and the
/// names of the contents, one per line, as its body.
pub open spec fn welcomes(r: SendRequest, sender: Seq<char>, email: Seq<char>, contents: Seq<Content>) -> bool {
    r.msg matches Some(Msg::Email(m)) && {
        &&& uuid_v4_text(m.message_id@)
        &&& m.subject@ == welcome_subject()
        &&& m.sender@ == sender
        &&& m.recipients@.len() == 1
        &&& m.recipients@[0]@ == email
        &&& m.body@ == contents_body(contents)
    }
}

/// The requests that welcome the users found for a welcome request: one
/// e-mail for each user, in the order in which they came.
pub fn welcome_sends(sender: &str, users: &[crate::query::User], contents: &[Content]) -> (reqs: Vec<SendRequest>)
    ensures
        reqs@.len() == users@.len(),
        forall|i: int|
            0 <= i < users@.len() ==> welcomes(#[trigger] reqs@[i], sender@, users@[i].email@, contents@),
{
    let mut reqs: Vec<SendRequest> = Vec::new();
    let mut i: usize = 0;
    while i < users.len()
        invariant
            i <= users.len(),
            reqs@.len() == i,
            forall|k: int| 0 <= k < i ==> welcomes(#[trigger] reqs@[k], sender@, users@[k].email@, contents@),
        decreases users.len() - i,
    {
        let mut to: Vec<String> = Vec::new();
        to.push(users[i].email.clone());
        let r = SendRequest::new(String::from_str("Welcome"), String::from_str(sender), to.as_slice(), contents);
        reqs.push(r);
        i = i + 1;
    }
    reqs
}

/// The column on which the welcome query selects users.
pub open spec fn signup_column() -> Seq<char> {
    "created_at"@
}

/// The query for a window of one day, from the second `lower`, on the signup
/// column.
pub open spec fn signup_day_query(lower: int) -> QueryView {
    window_query(signup_column(), lower, lower + 86400)
}

/// The query for the users who signed up on the day that starts `interval`
/// days before `now`: the window from that instant to one day later, as
/// `chrono` shifts them (see `day_shift`), at whole seconds; `None` where
/// either end leaves the range that `chrono` represents.
pub fn welcome_query_at(now: UtcDateTime, interval: u32) -> (r: Option<QueryRequest>)
    ensures
        ({
            let lower = day_shift(now@, -interval);
            let upper = day_shift(lower, 1);
            &&& r is Some <==> (utc_accepts(lower.seconds, lower.nanos) && utc_accepts(
                upper.seconds,
                upper.nanos,
            ))
            &&& r matches Some(q) ==> q@ == window_query(signup_column(), lower.seconds, upper.seconds)
        }),
        r matches Some(q) ==> query_valid(q@),
        now@.nanos < 1_000_000_000 ==> (r matches Some(q) ==> q@ == signup_day_query(
            now@.seconds - 86400 * interval,
        )),
{
    let d1 = match now.checked_sub_days(interval as i64) {
        Some(d) => d,
        None => return None,
    };
    let d2 = match d1.checked_add_days(1) {
        Some(d) => d,
        None => return None,
    };
    proof {
        lemma_window_sql(signup_column(), d1@.seconds, d2@.seconds);
    }
    Some(QueryRequest::new_with_dt("created_at", d1, d2))
}

/// For some reading of the system clock, the day that starts `interval`
/// days before it leaves the range that `chrono` represents.
pub open spec fn welcome_day_out_of_range(interval: int) -> bool {
    exists|t: UtcInstant| #[trigger] clock_reading(t) && !(utc_accepts(
        t.seconds - 86400 * interval,
        t.nanos,
    ) && utc_accepts(t.seconds - 86400 * interval + 86400, t.nanos))
}

/// The welcome query for the day that starts `interval` days before now,
/// read from the system clock: the one-day window on the signup column that
/// starts `interval` days before that reading; `None` where it leaves the
/// range that `chrono` represents, which never happens for 1 to
/// `safe_days_back()` days. An interval for which every reading of the clock
/// leaves the range is not taken (see `days_back_possible`).
pub fn welcome_query(interval: u32) -> (r: Option<QueryRequest>)
    requires
        days_back_possible(interval as int),
    ensures
        r matches Some(q) ==> query_valid(q@),
        r matches Some(q) ==> exists|t: UtcInstant| #[trigger] clock_reading(t) && q@ == signup_day_query(
            t.seconds - 86400 * interval,
        ),
        r is None ==> welcome_day_out_of_range(interval as int),
        1 <= interval <= safe_days_back() ==> r is Some,
{
    let now = utc_now();
    let r = welcome_query_at(now, interval);
    proof {
        assert(clock_reading(now@));
    }
    r
}

} // verus!
