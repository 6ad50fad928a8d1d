//! Random values and fake data, drawn through `rand`, `fake` and `uuid`.
//! Each result depends on chance, so the contracts say only what holds of
//! every outcome.

use vstd::prelude::*;

use fake::Fake;
use rand::Rng;

use crate::text::join;
use crate::time::{utc_accepts, UtcDateTime};

verus! {

/// `rand::rng().random_range(low..high)`: a number drawn from the thread's
/// random generator, at least `low` and below `high` (`rand` panics on an
/// empty range).
#[verifier::external_body]
pub(crate) fn random_range_u32(low: u32, high: u32) -> (r: u32)
    requires
        low < high,
    ensures
        low <= r < high,
{
    rand::rng().random_range(low..high)
}

/// `(low..high).fake::<u32>()` from `fake`: a number at least `low` and
/// below `high` (`fake` draws it with `random_range`, which panics on an
/// empty range).
#[verifier::external_body]
pub(crate) fn fake_u32_in(low: u32, high: u32) -> (r: u32)
    requires
        low < high,
    ensures
        low <= r < high,
{
    (low..high).fake::<u32>()
}

/// `Faker.fake::<i32>()` from `fake`: any `i32`; nothing more is promised.
#[verifier::external_body]
pub(crate) fn fake_i32() -> i32 {
    fake::Faker.fake::<i32>()
}

/// `fake::faker::name::en::Name().fake()`: a random English full name,
/// written from the template `{FirstName} {LastName}`, so it holds the space
/// between the two names; which names are drawn is left unsaid here.
#[verifier::external_body]
pub(crate) fn fake_name() -> (s: String)
    ensures
        s@.len() > 0,
        s@.contains(' '),
{
    fake::faker::name::en::Name().fake::<String>()
}

/// A lower-case letter.
pub open spec fn lower_letter(c: char) -> bool {
    'a' <= c && c <= 'z'
}

/// The text is the words, each a non-empty run of lower-case letters,
/// joined by single spaces and followed by a full stop.
pub open spec fn lorem_sentence(s: Seq<char>, words: Seq<Seq<char>>) -> bool {
    &&& s == join(words, " "@) + "."@
    &&& forall|i: int| 0 <= i < words.len() ==> #[trigger] words[i].len() > 0
    &&& forall|i: int, j: int| 0 <= i < words.len() && 0 <= j < words[i].len() ==> lower_letter(#[trigger] words[i][j])
}

/// The text is a sentence of lorem words (see `lorem_sentence`) with at
/// least `min` and fewer than `max` words.
pub open spec fn lorem_words_between(s: Seq<char>, min: int, max: int) -> bool {
    exists|words: Seq<Seq<char>>| min <= words.len() < max && #[trigger] lorem_sentence(s, words)
}

/// `fake::faker::lorem::en::Sentence(min..max).fake()`: between `min` and
/// `max - 1` words drawn from `fake`'s lorem word list (all of them
/// non-empty and lower-case) joined by spaces, then a full stop (`fake`
/// draws the count with `random_range`, which panics on an empty range).
#[verifier::external_body]
pub(crate) fn fake_sentence(min: usize, max: usize) -> (s: String)
    requires
        min < max,
    ensures
        lorem_words_between(s@, min as int, max as int),
        s@.len() > 0,
        s@.last() == '.',
{
    fake::faker::lorem::en::Sentence(min..max).fake::<String>()
}

/// `fake::faker::internet::en::SafeEmail().fake()`: a random address
/// `name@example.com`, `.net` or `.org`, so it holds an `@`; what else it
/// holds is left unsaid here.
#[verifier::external_body]
pub(crate) fn fake_safe_email() -> (s: String)
    ensures
        s@.contains('@'),
{
    fake::faker::internet::en::SafeEmail().fake::<String>()
}

/// The phone number formats of `fake`'s English locale: `^` stands for a
/// digit from 1 to 9, `#` for any digit, every other character for itself.
pub open spec fn phone_formats() -> Seq<Seq<char>> {
    seq![
        "(^##) ###-#### x###"@,
        "(^##) ###-#### x####"@,
        "(^##) ###-#### x#####"@,
        "(^##) ###-####"@,
        "1-^##-###-#### x###"@,
        "1-^##-###-#### x####"@,
        "1-^##-###-#### x#####"@,
        "1-^##-###-####"@,
        "^##-###-#### x###"@,
        "^##-###-#### x####"@,
        "^##-###-#### x#####"@,
        "^##-###-####"@,
        "^##.###.#### x###"@,
        "^##.###.#### x####"@,
        "^##.###.#### x#####"@,
        "^##.###.####"@,
    ]
}

/// The text is the format with each `^` replaced by a digit from 1 to 9,
/// each `#` by a digit, and every other character kept.
pub open spec fn numerified(s: Seq<char>, format: Seq<char>) -> bool {
    &&& s.len() == format.len()
    &&& forall|i: int|
        0 <= i < s.len() ==> if format[i] == '^' {
            '1' <= #[trigger] s[i] && s[i] <= '9'
        } else if format[i] == '#' {
            '0' <= s[i] && s[i] <= '9'
        } else {
            s[i] == format[i]
        }
}

/// The text is a phone number written from one of `fake`'s formats.
pub open spec fn fake_phone_text(s: Seq<char>) -> bool {
    exists|k: int| 0 <= k < phone_formats().len() && numerified(s, #[trigger] phone_formats()[k])
}

/// `fake::faker::phone_number::en::PhoneNumber().fake()`: a random phone
/// number, written from one of `fake`'s formats (`PHONE_NUMBER_FORMATS`)
/// with a digit in place of each placeholder; the shortest format,
/// `^##-###-####`, has twelve characters. Which format and digits are drawn
/// is left unsaid here.
#[verifier::external_body]
pub(crate) fn fake_phone_number() -> (s: String)
    ensures
        s@.len() >= 12,
        fake_phone_text(s@),
{
    fake::faker::phone_number::en::PhoneNumber().fake::<String>()
}

/// A character that a phone number of `fake` may hold.
pub open spec fn phone_char(c: char) -> bool {
    ('0' <= c && c <= '9') || c == '(' || c == ')' || c == ' ' || c == '-' || c == '.' || c == 'x'
}

/// Every phone number written from one of `fake`'s formats has 12 to 21
/// characters, each a digit or one of `(`, `)`, space, `-`, `.` and `x`,
/// and begins with a digit or `(`.
pub proof fn lemma_phone_text_shape(s: Seq<char>)
    requires
        fake_phone_text(s),
    ensures
        12 <= s.len() <= 21,
        forall|i: int| 0 <= i < s.len() ==> phone_char(#[trigger] s[i]),
        ('0' <= s[0] && s[0] <= '9') || s[0] == '(',
{
        reveal_strlit("(^##) ###-#### x###");
        reveal_strlit("(^##) ###-#### x####");
        reveal_strlit("(^##) ###-#### x#####");
        reveal_strlit("(^##) ###-####");
        reveal_strlit("1-^##-###-#### x###");
        reveal_strlit("1-^##-###-#### x####");
        reveal_strlit("1-^##-###-#### x#####");
        reveal_strlit("1-^##-###-####");
        reveal_strlit("^##-###-#### x###");
        reveal_strlit("^##-###-#### x####");
        reveal_strlit("^##-###-#### x#####");
        reveal_strlit("^##-###-####");
        reveal_strlit("^##.###.#### x###");
        reveal_strlit("^##.###.#### x####");
        reveal_strlit("^##.###.#### x#####");
        reveal_strlit("^##.###.####");
    let k = choose|k: int| 0 <= k < phone_formats().len() && numerified(s, #[trigger] phone_formats()[k]);
    let f = phone_formats()[k];
    assert forall|i: int| 0 <= i < s.len() implies phone_char(#[trigger] s[i]) by {
        assert(f[i] == '^' || f[i] == '#' || phone_char(f[i]));
    }
    assert(f[0] == '^' || f[0] == '(' || f[0] == '1');
}

/// A lower-case hexadecimal digit.
pub open spec fn lower_hex_digit(c: char) -> bool {
    ('0' <= c && c <= '9') || ('a' <= c && c <= 'f')
}

/// The hyphenated text of a version-4 UUID: 36 characters, hyphens after
/// the 8th, 12th, 16th and 20th hexadecimal digit, the version digit `4`
/// and a variant digit of `8`, `9`, `a` or `b`.
pub open spec fn uuid_v4_text(s: Seq<char>) -> bool {
    &&& s.len() == 36
    &&& forall|i: int|
        0 <= i < 36 ==> if i == 8 || i == 13 || i == 18 || i == 23 {
            #[trigger] s[i] == '-'
        } else {
            lower_hex_digit(s[i])
        }
    &&& s[14] == '4'
    &&& (s[19] == '8' || s[19] == '9' || s[19] == 'a' || s[19] == 'b')
}

/// `uuid::Uuid::new_v4().to_string()`: a random version-4 UUID in its
/// hyphenated lower-case form (`new_v4` sets the version and variant bits,
/// `Display` writes the hyphenated hexadecimal form).
#[verifier::external_body]
pub(crate) fn uuid_v4_string() -> (s: String)
    ensures
        uuid_v4_text(s@),
{
    uuid::Uuid::new_v4().to_string()
}

/// The span from `start` to `end` in nanoseconds.
pub open spec fn span_nanos(start_s: int, start_n: int, end_s: int, end_n: int) -> int {
    (end_s - start_s) * 1_000_000_000 + end_n - start_n
}

/// `fake::faker::chrono::en::DateTimeBetween(start, end).fake()`: `start`
/// plus a random whole number of minutes that is below the number of whole
/// minutes from `start` to `end` (`fake` panics where there is none).
#[verifier::external_body]
pub(crate) fn fake_datetime_between(start: UtcDateTime, end: UtcDateTime) -> (t: UtcDateTime)
    requires
        start@.nanos < 1_000_000_000,
        end@.nanos < 1_000_000_000,
        span_nanos(start@.seconds, start@.nanos, end@.seconds, end@.nanos) >= 60_000_000_000,
    ensures
        t@.nanos == start@.nanos,
        start@.seconds <= t@.seconds,
        (t@.seconds - start@.seconds) % 60 == 0,
        span_nanos(start@.seconds, start@.nanos, t@.seconds, t@.nanos) + 60_000_000_000
            <= span_nanos(start@.seconds, start@.nanos, end@.seconds, end@.nanos),
        utc_accepts(t@.seconds, t@.nanos),
{
    let s = chrono::DateTime::from_timestamp(start.seconds, start.nanos).unwrap();
    let e = chrono::DateTime::from_timestamp(end.seconds, end.nanos).unwrap();
    let t: chrono::DateTime<chrono::Utc> = fake::faker::chrono::en::DateTimeBetween(s, e).fake();
    UtcDateTime { seconds: t.timestamp(), nanos: t.timestamp_subsec_nanos() }
}

} // verus!
