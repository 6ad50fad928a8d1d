use chrono::{TimeZone, Utc};
use crm::crm::{welcome_query, welcome_query_at, welcome_sends, CreateUserRequest, GetUserRequest, User, UserServer, WelcomeRequest};
use crm::metadata::Content;
use crm::query;
use crm::send::Msg;
use crm::time::UtcDateTime;

#[test]
fn user_new_keeps_its_fields() {
    let user = User::new(1, "Alice", "alice@acme.org");
    assert_eq!(user.id, 1);
    assert_eq!(user.name, "Alice");
    assert_eq!(user.email, "alice@acme.org");
}

#[test]
fn get_user_answers_the_empty_user() {
    let u = UserServer.get_user(GetUserRequest { id: 42 });
    assert_eq!(u, User::default());
    assert_eq!(u.id, 0);
    assert!(u.name.is_empty() && u.email.is_empty());
}

#[test]
fn create_user_answers_user_one() {
    let u = UserServer.create_user(CreateUserRequest { name: "Bob".to_string(), email: "bob@acme.org".to_string() });
    assert_eq!(u, User::new(1, "Bob", "bob@acme.org"));
}

#[test]
fn welcome_query_covers_one_day_interval_days_ago() {
    let now = Utc.with_ymd_and_hms(2024, 1, 31, 8, 30, 0).unwrap();
    let t = UtcDateTime::from_timestamp(now.timestamp(), 123).unwrap();
    let q = welcome_query_at(t, 30).unwrap();
    assert_eq!(
        q.to_string(),
        "SELECT email, name FROM user_stats WHERE created_at BETWEEN '2024-01-01 08:30:00' AND '2024-01-02 08:30:00'"
    );
}

#[test]
fn welcome_query_refuses_leaving_the_range() {
    let t = UtcDateTime::from_timestamp(0, 0).unwrap();
    assert!(welcome_query_at(t, u32::MAX).is_none());
    let t = UtcDateTime::from_timestamp(8210266876799, 0).unwrap();
    assert!(welcome_query_at(t, 0).is_none());
    assert!(welcome_query_at(t, 1).is_some());
}

#[test]
fn welcome_query_now_is_a_day_long() {
    let q = welcome_query(3).unwrap();
    assert!(q.timestamps_valid());
    let sql = q.to_string();
    assert!(sql.starts_with("SELECT email, name FROM user_stats WHERE created_at BETWEEN '"));
}

#[test]
fn welcome_query_at_a_leap_second_follows_chrono() {
    let leap = UtcDateTime::from_timestamp(1_483_228_799, 1_500_000_000).unwrap();
    let now = chrono::DateTime::from_timestamp(1_483_228_799, 1_500_000_000).unwrap();
    let d1 = now - chrono::Duration::days(2);
    let d2 = d1 + chrono::Duration::days(1);
    let q = welcome_query_at(leap, 2).unwrap();
    let expected = format!(
        "SELECT email, name FROM user_stats WHERE created_at BETWEEN '{}' AND '{}'",
        d1.format("%Y-%m-%d %H:%M:%S"),
        d2.format("%Y-%m-%d %H:%M:%S")
    );
    assert_eq!(q.to_string(), expected);
}

fn content(id: u32, name: &str) -> Content {
    Content {
        id,
        name: name.to_string(),
        description: String::new(),
        publishers: vec![],
        url: String::new(),
        image: String::new(),
        content_type: 0,
        created_at: None,
        views: 0,
        likes: 0,
        dislikes: 0,
    }
}

#[test]
fn welcome_sends_one_email_per_user() {
    let users = vec![
        query::User { email: "a@x.org".to_string(), name: "A".to_string() },
        query::User { email: "b@x.org".to_string(), name: "B".to_string() },
    ];
    let contents = vec![content(1, "Intro"), content(2, "Tour")];
    let reqs = welcome_sends("crm@x.org", &users, &contents);
    assert_eq!(reqs.len(), 2);
    for (r, u) in reqs.iter().zip(users.iter()) {
        match &r.msg {
            Some(Msg::Email(m)) => {
                assert_eq!(m.subject, "Welcome");
                assert_eq!(m.sender, "crm@x.org");
                assert_eq!(m.recipients, vec![u.email.clone()]);
                assert_eq!(m.body, "Intro\nTour");
                assert_eq!(m.message_id.len(), 36);
            }
            other => panic!("not an e-mail: {:?}", other),
        }
    }
    assert!(welcome_sends("crm@x.org", &[], &contents).is_empty());
}

#[test]
fn welcome_is_answered_with_the_request_id() {
    let req = WelcomeRequest { id: "w-42".to_string(), interval: 3, content_ids: vec![1, 2] };
    assert_eq!(req.response().id, "w-42");
}
