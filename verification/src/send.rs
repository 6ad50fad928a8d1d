//! The notification service's messages: e-mail, SMS and in-app messages,
//! the request that carries one of them, and the answer to a message that
//! the service tried to queue.

use vstd::prelude::*;

use crate::fakes::{fake_phone_number, fake_phone_text, fake_safe_email, fake_sentence, lorem_words_between, uuid_v4_string, uuid_v4_text};
use crate::metadata::Content;
use crate::query::Timestamp;
use crate::text::join;

verus! {

/// An e-mail.
#[derive(Clone, Debug, PartialEq, Eq)]
pub struct EmailMessage {
    pub message_id: String,
    pub subject: String,
    pub sender: String,
    pub recipients: Vec<String>,
    pub body: String,
}

/// A text message to phones.
#[derive(Clone, Debug, PartialEq, Eq)]
pub struct SmsMessage {
    pub message_id: String,
    pub sender: String,
    pub recipients: Vec<String>,
    pub body: String,
}

/// A message shown inside the app on one device.
#[derive(Clone, Debug, PartialEq, Eq)]
pub struct InAppMessage {
    pub message_id: String,
    pub device_id: String,
    pub title: String,
    pub body: String,
}

/// One message of any kind.
#[derive(Clone, Debug, PartialEq, Eq)]
pub enum Msg {
    Email(EmailMessage),
    Sms(SmsMessage),
    InApp(InAppMessage),
}

/// A request to send a message.
#[derive(Clone, Debug, PartialEq, Eq)]
pub struct SendRequest {
    pub msg: Option<Msg>,
}

/// The answer for a message that was queued: its id and when it was sent.
#[derive(Clone, Debug, PartialEq, Eq)]
pub struct SendResponse {
    pub message_id: String,
    pub sent_at: Option<Timestamp>,
}

/// The kind of a failure.
#[derive(Clone, Copy, Debug, PartialEq, Eq)]
pub enum StatusCode {
    Internal,
}

/// A failed call: its kind and a message.
#[derive(Clone, Debug, PartialEq, Eq)]
pub struct Status {
    pub code: StatusCode,
    pub message: String,
}

impl Status {
    /// An internal failure with the given message.
    pub fn internal(message: &str) -> (s: Status)
        ensures
            s.code == StatusCode::Internal,
            s.message@ == message@,
    {
        Status { code: StatusCode::Internal, message: String::from_str(message) }
    }
}

/// The message of a failure to queue.
pub open spec fn queue_failure_message() -> Seq<char> {
    "Failed to send message"@
}

/// The answer to a message that the service tried to hand to its queue:
/// the message's id and the time of sending where the queue took it, an
/// internal failure where it did not.
pub fn queued_response(message_id: String, queued: bool, sent_at: Timestamp) -> (r: Result<SendResponse, Status>)
    ensures
        queued <==> r is Ok,
        r matches Ok(resp) ==> resp.message_id@ == message_id@ && resp.sent_at == Some(sent_at),
        r matches Err(status) ==> status.code == StatusCode::Internal && status.message@
            == queue_failure_message(),
{
    if !queued {
        return Err(Status::internal("Failed to send message"));
    }
    Ok(SendResponse { message_id, sent_at: Some(sent_at) })
}

impl From<EmailMessage> for Msg {
    fn from(msg: EmailMessage) -> (m: Msg) {
        Msg::Email(msg)
    }
}

impl vstd::std_specs::convert::FromSpecImpl<EmailMessage> for Msg {
    open spec fn obeys_from_spec() -> bool {
        true
    }

    open spec fn from_spec(msg: EmailMessage) -> Msg {
        Msg::Email(msg)
    }
}

impl From<SmsMessage> for Msg {
    fn from(msg: SmsMessage) -> (m: Msg) {
        Msg::Sms(msg)
    }
}

impl vstd::std_specs::convert::FromSpecImpl<SmsMessage> for Msg {
    open spec fn obeys_from_spec() -> bool {
        true
    }

    open spec fn from_spec(msg: SmsMessage) -> Msg {
        Msg::Sms(msg)
    }
}

impl From<InAppMessage> for Msg {
    fn from(msg: InAppMessage) -> (m: Msg) {
        Msg::InApp(msg)
    }
}

impl vstd::std_specs::convert::FromSpecImpl<InAppMessage> for Msg {
    open spec fn obeys_from_spec() -> bool {
        true
    }

    open spec fn from_spec(msg: InAppMessage) -> Msg {
        Msg::InApp(msg)
    }
}

impl From<EmailMessage> for SendRequest {
    fn from(email: EmailMessage) -> (r: SendRequest) {
        let msg: Msg = email.into();
        SendRequest { msg: Some(msg) }
    }
}

impl vstd::std_specs::convert::FromSpecImpl<EmailMessage> for SendRequest {
    open spec fn obeys_from_spec() -> bool {
        true
    }

    open spec fn from_spec(email: EmailMessage) -> SendRequest {
        SendRequest { msg: Some(Msg::Email(email)) }
    }
}

impl From<SmsMessage> for SendRequest {
    fn from(sms: SmsMessage) -> (r: SendRequest) {
        let msg: Msg = sms.into();
        SendRequest { msg: Some(msg) }
    }
}

impl vstd::std_specs::convert::FromSpecImpl<SmsMessage> for SendRequest {
    open spec fn obeys_from_spec() -> bool {
        true
    }

    open spec fn from_spec(sms: SmsMessage) -> SendRequest {
        SendRequest { msg: Some(Msg::Sms(sms)) }
    }
}

impl From<InAppMessage> for SendRequest {
    fn from(in_app: InAppMessage) -> (r: SendRequest) {
        let msg: Msg = in_app.into();
        SendRequest { msg: Some(msg) }
    }
}

impl vstd::std_specs::convert::FromSpecImpl<InAppMessage> for SendRequest {
    open spec fn obeys_from_spec() -> bool {
        true
    }

    open spec fn from_spec(in_app: InAppMessage) -> SendRequest {
        SendRequest { msg: Some(Msg::InApp(in_app)) }
    }
}

/// Sending any kind of message wraps it, as the matching `Msg`, in a
/// request: the conversion to a request is the conversion to a `Msg`,
/// placed in the request.
pub proof fn lemma_request_wraps_msg(email: EmailMessage, sms: SmsMessage, in_app: InAppMessage)
    ensures
        <SendRequest as vstd::std_specs::convert::FromSpec<EmailMessage>>::from_spec(email).msg
            == Some(<Msg as vstd::std_specs::convert::FromSpec<EmailMessage>>::from_spec(email)),
        <SendRequest as vstd::std_specs::convert::FromSpec<SmsMessage>>::from_spec(sms).msg
            == Some(<Msg as vstd::std_specs::convert::FromSpec<SmsMessage>>::from_spec(sms)),
        <SendRequest as vstd::std_specs::convert::FromSpec<InAppMessage>>::from_spec(in_app).msg
            == Some(<Msg as vstd::std_specs::convert::FromSpec<InAppMessage>>::from_spec(in_app)),
{
}

/// The body of an e-mail about contents: their names, one per line.
pub open spec fn contents_body(contents: Seq<Content>) -> Seq<char> {
    join(contents.map_values(|c: Content| c.name@), "\n"@)
}

impl SendRequest {
    /// A request to send an e-mail about the contents: a fresh UUID as its
    /// id, the given subject, sender and recipients, and the names of the
    /// contents, one per line, as its body.
    pub fn new(subject: String, sender: String, recipients: &[String], contents: &[Content]) -> (r: SendRequest)
        ensures
            r.msg matches Some(Msg::Email(m)) && {
                &&& uuid_v4_text(m.message_id@)
                &&& m.subject == subject
                &&& m.sender == sender
                &&& m.recipients@ == recipients@
                &&& m.body@ == contents_body(contents@)
            },
    {
        let ghost names = contents@.map_values(|c: Content| c.name@);
        let mut to: Vec<String> = Vec::new();
        let mut i: usize = 0;
        while i < recipients.len()
            invariant
                i <= recipients.len(),
                to@ == recipients@.take(i as int),
            decreases recipients.len() - i,
        {
            to.push(recipients[i].clone());
            assert(recipients@.take(i + 1) == recipients@.take(i as int).push(recipients@[i as int]));
            i = i + 1;
        }
        assert(recipients@.take(recipients.len() as int) == recipients@);
        let mut body = String::new();
        let mut j: usize = 0;
        while j < contents.len()
            invariant
                j <= contents.len(),
                names.len() == contents@.len(),
                forall|k: int| 0 <= k < contents@.len() ==> #[trigger] names[k] == contents@[k].name@,
                body@ == join(names.take(j as int), "\n"@),
            decreases contents.len() - j,
        {
            if j > 0 {
                body.append("\n");
            }
            body.append(contents[j].name.as_str());
            assert(names.take(j + 1).drop_last() =~= names.take(j as int));
            j = j + 1;
        }
        assert(names.take(contents.len() as int) =~= names);
        let email = EmailMessage {
            message_id: uuid_v4_string(),
            subject,
            sender,
            recipients: to,
            body,
        };
        SendRequest { msg: Some(Msg::Email(email)) }
    }
}

/// The subject of every made-up e-mail.
pub open spec fn fake_subject() -> Seq<char> {
    "Hello"@
}

impl EmailMessage {
    /// A made-up e-mail: a fresh UUID as its id, a random sender and one
    /// random recipient at example domains, the subject `Hello` and a random
    /// sentence of five to nine words as its body.
    pub fn fake() -> (m: EmailMessage)
        ensures
            uuid_v4_text(m.message_id@),
            m.sender@.contains('@'),
            m.recipients@.len() == 1,
            m.recipients@[0]@.contains('@'),
            m.subject@ == fake_subject(),
            m.body@.len() > 0 && m.body@.last() == '.',
            lorem_words_between(m.body@, 5, 10),
    {
        let message_id = uuid_v4_string();
        let sender = fake_safe_email();
        let mut recipients: Vec<String> = Vec::new();
        recipients.push(fake_safe_email());
        EmailMessage {
            message_id,
            sender,
            recipients,
            subject: String::from_str("Hello"),
            body: fake_sentence(5, 10),
        }
    }
}

impl SmsMessage {
    /// A made-up text message: a fresh UUID as its id, a random sender and
    /// one random recipient phone number, and a random sentence of five to
    /// nine words.
    pub fn fake() -> (m: SmsMessage)
        ensures
            uuid_v4_text(m.message_id@),
            m.sender@.len() >= 12,
            fake_phone_text(m.sender@),
            m.recipients@.len() == 1,
            m.recipients@[0]@.len() >= 12,
            fake_phone_text(m.recipients@[0]@),
            m.body@.len() > 0 && m.body@.last() == '.',
            lorem_words_between(m.body@, 5, 10),
    {
        let message_id = uuid_v4_string();
        let sender = fake_phone_number();
        let mut recipients: Vec<String> = Vec::new();
        recipients.push(fake_phone_number());
        SmsMessage { message_id, sender, recipients, body: fake_sentence(5, 10) }
    }
}

impl InAppMessage {
    /// A made-up in-app message: fresh UUIDs as its id and its device, a
    /// random title of three to six words and a random body of five to nine
    /// words.
    pub fn fake() -> (m: InAppMessage)
        ensures
            uuid_v4_text(m.message_id@),
            uuid_v4_text(m.device_id@),
            m.title@.len() > 0 && m.title@.last() == '.',
            m.body@.len() > 0 && m.body@.last() == '.',
            lorem_words_between(m.title@, 3, 7),
            lorem_words_between(m.body@, 5, 10),
    {
        InAppMessage {
            message_id: uuid_v4_string(),
            device_id: uuid_v4_string(),
            title: fake_sentence(3, 7),
            body: fake_sentence(5, 10),
        }
    }
}

} // verus!
