//! The metadata service: its configuration, and the content it makes up for
//! a requested id, with made-up publishers and statistics.

use vstd::prelude::*;

use crate::fakes::{fake_datetime_between, fake_i32, fake_name, fake_sentence, fake_u32_in, lorem_words_between, random_range_u32};
use crate::query::{timestamp_valid, Timestamp};
use crate::send::Status;
use crate::time::{clock_reading, utc_accepts, utc_now, UtcDateTime, UtcInstant};

verus! {

/// The configuration of the metadata service.
#[derive(Clone, Debug, PartialEq, Eq)]
pub struct AppConfig {
    pub server: ServerConfig,
    pub auth: AuthConfig,
}

/// The key material of the service.
#[derive(Clone, Debug, PartialEq, Eq)]
pub struct AuthConfig {
    pub pk: String,
}

/// Where the service listens.
#[derive(Clone, Debug, PartialEq, Eq)]
pub struct ServerConfig {
    pub port: u16,
}

/// The metadata service.
pub struct MetadataService {
    config: AppConfig,
}

impl View for MetadataService {
    type V = AppConfig;

    closed spec fn view(&self) -> AppConfig {
        self.config
    }
}

/// A service made ready to be served: it holds the service that answers.
pub struct MetadataServer<T> {
    inner: T,
}

impl<T> View for MetadataServer<T> {
    type V = T;

    closed spec fn view(&self) -> T {
        self.inner
    }
}

impl<T> MetadataServer<T> {
    /// The server for a service.
    pub fn new(inner: T) -> (s: MetadataServer<T>)
        ensures
            s@ == inner,
    {
        MetadataServer { inner }
    }

    /// The service that the server holds.
    pub fn into_inner(self) -> (inner: T)
        ensures
            inner == self@,
    {
        self.inner
    }
}

impl MetadataService {
    /// The service with the given configuration.
    pub fn new(config: AppConfig) -> (s: MetadataService)
        ensures
            s@ == config,
    {
        MetadataService { config }
    }

    /// The server for this service.
    pub fn into_server(self) -> (s: MetadataServer<MetadataService>)
        ensures
            s@ == self,
    {
        MetadataServer::new(self)
    }
}

/// A request for the content with an id.
#[derive(Clone, Copy, Debug, PartialEq, Eq)]
pub struct MaterializeRequest {
    pub id: u32,
}

/// Who published a content.
#[derive(Clone, Debug, PartialEq, Eq)]
pub struct Publisher {
    pub id: u32,
    pub name: String,
    pub avatar: String,
}

/// A content item with its publishers and statistics.
#[derive(Clone, Debug, PartialEq, Eq)]
pub struct Content {
    pub id: u32,
    pub name: String,
    pub description: String,
    pub publishers: Vec<Publisher>,
    pub url: String,
    pub image: String,
    pub content_type: i32,
    pub created_at: Option<Timestamp>,
    pub views: u32,
    pub likes: u32,
    pub dislikes: u32,
}

/// The placeholder picture of a content.
pub open spec fn content_picture() -> Seq<char> {
    "https://placehold.co/400x320"@
}

/// The placeholder avatar of a publisher.
pub open spec fn publisher_avatar() -> Seq<char> {
    "https://placehold.co/200x200"@
}

/// What every made-up publisher satisfies.
pub open spec fn publisher_made_up(p: Publisher) -> bool {
    &&& 1000 <= p.id < 200000
    &&& p.name@.len() > 0
    &&& p.name@.contains(' ')
    &&& p.avatar@ == publisher_avatar()
}

/// The span of a year of 365 days, in seconds.
pub open spec fn year_seconds() -> int {
    31536000
}

impl Publisher {
    /// A made-up publisher: a random id from 1000 to 199999, a random name
    /// and the placeholder avatar.
    pub fn new() -> (p: Publisher)
        ensures
            publisher_made_up(p),
    {
        Publisher {
            id: fake_u32_in(1000, 200000),
            name: fake_name(),
            avatar: String::from_str("https://placehold.co/200x200"),
        }
    }
}

/// A random creation time in the year of 365 days before `now`: `now`
/// less that year plus a random whole number of minutes, at least a minute
/// before `now`, with the nanoseconds of `now`.
pub fn created_in_year_before(now: UtcDateTime) -> (ts: Timestamp)
    requires
        now@.nanos < 1_000_000_000,
        utc_accepts(now@.seconds - year_seconds(), now@.nanos),
    ensures
        timestamp_valid(ts),
        ts.nanos == now@.nanos,
        now@.seconds - year_seconds() <= ts.seconds <= now@.seconds - 60,
        (ts.seconds - (now@.seconds - year_seconds())) % 60 == 0,
{
    let start = now.checked_sub_days(365).unwrap();
    let date = fake_datetime_between(start, now);
    let seconds = date.timestamp();
    let nanos = date.timestamp_subsec_nanos();
    Timestamp { seconds, nanos: nanos as i32 }
}

/// A creation time in the year of 365 days before some reading of the
/// system clock: a whole number of minutes after the start of that year, at
/// least a minute before the reading, with the reading's nanoseconds.
pub open spec fn created_in_past_year(t: Timestamp) -> bool {
    exists|now: UtcInstant| #[trigger] clock_reading(now) && t.nanos == now.nanos && now.seconds
        - year_seconds() <= t.seconds <= now.seconds - 60 && (t.seconds - (now.seconds
        - year_seconds())) % 60 == 0
}

/// A random creation time within the past 365 days, read against the
/// system clock (see `created_in_year_before`).
pub fn created_at() -> (ts: Option<Timestamp>)
    ensures
        ts matches Some(t) && timestamp_valid(t) && 0 <= t.nanos < 1_000_000_000 && t.seconds
            >= -year_seconds(),
        ts matches Some(t) && created_in_past_year(t),
{
    let now = utc_now();
    let t = created_in_year_before(now);
    proof {
        assert(clock_reading(now@));
    }
    Some(t)
}

/// What every made-up content for `id` satisfies: the id, a random name of
/// two words, a random sentence of three to six words as description, up to
/// eight made-up publishers, the placeholder picture, a creation time within
/// the past year, and random counts of views (200 to 9999), likes (100 to
/// 4999) and dislikes (10 to 1999).
pub open spec fn content_made_up(c: Content, id: u32) -> bool {
    &&& c.id == id
    &&& c.name@.contains(' ')
    &&& c.description@.len() > 0 && c.description@.last() == '.'
    &&& lorem_words_between(c.description@, 3, 7)
    &&& c.publishers@.len() <= 8
    &&& forall|i: int| 0 <= i < c.publishers@.len() ==> publisher_made_up(#[trigger] c.publishers@[i])
    &&& c.url@ == content_picture()
    &&& c.image@ == content_picture()
    &&& c.created_at matches Some(t) && timestamp_valid(t) && created_in_past_year(t)
    &&& 200 <= c.views < 10000
    &&& 100 <= c.likes < 5000
    &&& 10 <= c.dislikes < 2000
}

impl Content {
    /// The content for an id, made up (see `content_made_up`), with a
    /// random type.
    pub fn meterialize(id: u32) -> (c: Content)
        ensures
            content_made_up(c, id),
    {
        let name = fake_name();
        let description = fake_sentence(3, 7);
        let count = random_range_u32(1, 10);
        let mut publishers: Vec<Publisher> = Vec::new();
        let mut k: u32 = 1;
        while k < count
            invariant
                1 <= k <= count < 10,
                publishers@.len() == k - 1,
                forall|i: int| 0 <= i < publishers@.len() ==> publisher_made_up(#[trigger] publishers@[i]),
            decreases count - k,
        {
            publishers.push(Publisher::new());
            k = k + 1;
        }
        Content {
            id,
            name,
            description,
            publishers,
            url: String::from_str("https://placehold.co/400x320"),
            image: String::from_str("https://placehold.co/400x320"),
            content_type: fake_i32(),
            created_at: created_at(),
            views: random_range_u32(200, 10000),
            likes: random_range_u32(100, 5000),
            dislikes: random_range_u32(10, 2000),
        }
    }
}

/// One step of answering a stream of content requests: the content for
/// the next request where one came, and `None`, which ends the answer, at
/// the end of the stream or at its first failed request.
pub fn materialize_step(item: Option<Result<MaterializeRequest, Status>>) -> (r: Option<Content>)
    ensures
        r is Some <==> item matches Some(Ok(_)),
        item matches Some(Ok(q)) ==> r matches Some(c) && content_made_up(c, q.id),
{
    match item {
        Some(Ok(q)) => Some(Content::meterialize(q.id)),
        _ => None,
    }
}

} // verus!
