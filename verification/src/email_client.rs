//! The client of the transactional-email provider.
//!
//! The client prepares the one request that delivers a message and judges
//! what came back. Performing the request is left to the caller: the client
//! holds no connection and makes no retries.

use crate::domain::SubscriberEmail;
use crate::secret::SecretString;
use vstd::prelude::*;
use vstd::string::*;

verus! {

/// A form field: its name and its value.
pub type FormField = (Seq<char>, Seq<char>);

/// What a list of form fields says, name by name and value by value.
pub open spec fn fields_view(fields: Seq<(String, &str)>) -> Seq<FormField> {
    Seq::new(fields.len(), |i: int| (fields[i].0@, fields[i].1@))
}

/// The five fields of a message, in the order in which they are sent.
pub open spec fn message_fields(
    from: Seq<char>,
    to: Seq<char>,
    subject: Seq<char>,
    html_body: Seq<char>,
    text_body: Seq<char>,
) -> Seq<FormField> {
    seq![
        ("From"@, from),
        ("To"@, to),
        ("Subject"@, subject),
        ("HtmlBody"@, html_body),
        ("TextBody"@, text_body),
    ]
}

/// A message as the provider wants it.
#[derive(Debug)]
pub struct SendEmailRequest<'a> {
    pub from: &'a str,
    pub to: &'a str,
    pub subject: &'a str,
    pub html_body: &'a str,
    pub text_body: &'a str,
}

impl<'a> SendEmailRequest<'a> {
    /// The form fields of the message, under the names that the provider
    /// expects.
    pub fn params(self) -> (params: Vec<(String, &'a str)>)
        ensures
            fields_view(params@) == message_fields(
                self.from@,
                self.to@,
                self.subject@,
                self.html_body@,
                self.text_body@,
            ),
    {
        let mut params: Vec<(String, &'a str)> = Vec::new();
        params.push((String::from_str("From"), self.from));
        params.push((String::from_str("To"), self.to));
        params.push((String::from_str("Subject"), self.subject));
        params.push((String::from_str("HtmlBody"), self.html_body));
        params.push((String::from_str("TextBody"), self.text_body));
        assert(fields_view(params@) =~= message_fields(
            self.from@,
            self.to@,
            self.subject@,
            self.html_body@,
            self.text_body@,
        ));
        params
    }
}

/// No two fields of a message share a name.
pub proof fn lemma_message_field_names_distinct(
    from: Seq<char>,
    to: Seq<char>,
    subject: Seq<char>,
    html_body: Seq<char>,
    text_body: Seq<char>,
)
    ensures
        forall|i: int, j: int|
            0 <= i < j < 5 ==> message_fields(from, to, subject, html_body, text_body)[i].0
                != message_fields(from, to, subject, html_body, text_body)[j].0,
{
    reveal_strlit("From");
    reveal_strlit("To");
    reveal_strlit("Subject");
    reveal_strlit("HtmlBody");
    reveal_strlit("TextBody");
    let fields = message_fields(from, to, subject, html_body, text_body);
    assert(fields[0].0.len() == 4);
    assert(fields[1].0.len() == 2);
    assert(fields[2].0.len() == 7);
    assert(fields[3].0[0] == 'H');
    assert(fields[4].0[0] == 'T');
    assert(fields[3].0.len() == 8);
    assert(fields[4].0.len() == 8);
}

/// What an [`EmailClient`] is made of.
pub struct EmailClientView {
    pub base_url: Seq<char>,
    pub sender: Seq<char>,
    pub authorization_token: Seq<char>,
    pub timeout_sec: u64,
}

/// What an [`EmailRequest`] says.
pub struct EmailRequestView {
    pub method: Seq<char>,
    pub url: Seq<char>,
    pub content_type: Seq<char>,
    pub username: Seq<char>,
    pub password: Seq<char>,
    pub form: Seq<FormField>,
    pub timeout_sec: u64,
}

/// The request that delivers one message: a `POST` to `{base_url}/email`,
/// under HTTP Basic authentication with the user `api` and the client's token
/// as the password, with the five fields of the message as its URL-encoded
/// form, to be given up after the client's timeout.
pub open spec fn delivery_request(
    client: EmailClientView,
    recipient: Seq<char>,
    subject: Seq<char>,
    html_content: Seq<char>,
    text_content: Seq<char>,
) -> EmailRequestView {
    EmailRequestView {
        method: "POST"@,
        url: client.base_url + "/email"@,
        content_type: "application/x-www-form-urlencoded"@,
        username: "api"@,
        password: client.authorization_token,
        form: message_fields(client.sender, recipient, subject, html_content, text_content),
        timeout_sec: client.timeout_sec,
    }
}

/// One outbound request, ready to be performed. The form is the body, to be
/// encoded as the content type says; the password is to be exposed only to
/// build the authorization header.
#[derive(Debug)]
pub struct EmailRequest<'a> {
    pub method: &'a str,
    pub url: String,
    pub content_type: &'a str,
    pub username: &'a str,
    pub password: &'a SecretString,
    pub form: Vec<(String, String)>,
    pub timeout_sec: u64,
}

/// What a list of owned form fields says.
pub open spec fn owned_fields_view(fields: Seq<(String, String)>) -> Seq<FormField> {
    Seq::new(fields.len(), |i: int| (fields[i].0@, fields[i].1@))
}

/// Copies the values of form fields, so that the list stands on its own.
fn to_owned_fields(fields: Vec<(String, &str)>) -> (owned: Vec<(String, String)>)
    ensures
        owned_fields_view(owned@) == fields_view(fields@),
{
    let mut owned: Vec<(String, String)> = Vec::new();
    let n = fields.len();
    let mut i: usize = 0;
    while i < n
        invariant
            n == fields@.len(),
            i <= n,
            owned@.len() == i,
            forall|j: int|
                0 <= j < i ==> (#[trigger] owned@[j]).0@ == fields@[j].0@ && owned@[j].1@
                    == fields@[j].1@,
        decreases n - i,
    {
        let name = fields[i].0.clone();
        let value = String::from_str(fields[i].1);
        owned.push((name, value));
        i += 1;
    }
    assert(owned_fields_view(owned@) =~= fields_view(fields@));
    owned
}

impl<'a> View for EmailRequest<'a> {
    type V = EmailRequestView;

    open spec fn view(&self) -> EmailRequestView {
        EmailRequestView {
            method: self.method@,
            url: self.url@,
            content_type: self.content_type@,
            username: self.username@,
            password: self.password@,
            form: owned_fields_view(self.form@),
            timeout_sec: self.timeout_sec,
        }
    }
}

/// How the attempt to perform a request ended.
#[derive(Clone, Copy, Debug, PartialEq, Eq, Structural)]
pub enum TransportOutcome {
    /// The provider answered, with this status code.
    Responded { status: u16 },
    /// No answer came within the timeout.
    TimedOut,
    /// The connection could not be made or broke.
    Failed,
}

/// Why a message was not delivered.
#[derive(Clone, Copy, Debug, PartialEq, Eq, Structural)]
pub enum DeliveryError {
    /// The request did not get through, or no answer came in time.
    Transport,
    /// The provider answered with a status outside 200..=299.
    RemoteRejected { status: u16 },
}

/// A status code that reports success.
pub open spec fn is_success(status: u16) -> bool {
    200 <= status <= 299
}

/// What an outcome means for the delivery: only an answer with a status in
/// 200..=299 delivers the message.
pub open spec fn delivery_of(outcome: TransportOutcome) -> Result<(), DeliveryError> {
    match outcome {
        TransportOutcome::Responded { status } => if is_success(status) {
            Ok(())
        } else {
            Err(DeliveryError::RemoteRejected { status })
        },
        TransportOutcome::TimedOut => Err(DeliveryError::Transport),
        TransportOutcome::Failed => Err(DeliveryError::Transport),
    }
}

/// The client of the email provider.
#[derive(Debug)]
pub struct EmailClient {
    base_url: String,
    sender: SubscriberEmail,
    authorization_token: SecretString,
    timeout_sec: u64,
}

impl View for EmailClient {
    type V = EmailClientView;

    closed spec fn view(&self) -> EmailClientView {
        EmailClientView {
            base_url: self.base_url@,
            sender: self.sender@,
            authorization_token: self.authorization_token@,
            timeout_sec: self.timeout_sec,
        }
    }
}

impl EmailClient {
    /// A client that sends as `sender` through the provider at `base_url`,
    /// and gives a request up after `timeout_sec` seconds.
    pub fn new(
        base_url: String,
        sender: SubscriberEmail,
        authorization_token: SecretString,
        timeout_sec: u64,
    ) -> (client: Self)
        ensures
            client@ == (EmailClientView {
                base_url: base_url@,
                sender: sender@,
                authorization_token: authorization_token@,
                timeout_sec,
            }),
    {
        EmailClient { base_url, sender, authorization_token, timeout_sec }
    }

    /// Prepares the request that delivers one message to `recipient`. The
    /// caller performs it, once, and hands the outcome to
    /// [`EmailClient::delivery_result`].
    pub fn send_email<'a>(
        &'a self,
        recipient: &SubscriberEmail,
        subject: &str,
        html_content: &str,
        text_content: &str,
    ) -> (request: EmailRequest<'a>)
        ensures
            request@ == delivery_request(
                self@,
                recipient@,
                subject@,
                html_content@,
                text_content@,
            ),
    {
        let mut url = self.base_url.clone();
        url.append("/email");
        let request_body = SendEmailRequest {
            from: self.sender.as_ref(),
            to: recipient.as_ref(),
            subject,
            html_body: html_content,
            text_body: text_content,
        };
        EmailRequest {
            method: "POST",
            url,
            content_type: "application/x-www-form-urlencoded",
            username: "api",
            password: &self.authorization_token,
            form: to_owned_fields(request_body.params()),
            timeout_sec: self.timeout_sec,
        }
    }

    /// Judges the outcome of a request: the message is delivered if and only
    /// if the provider answered with a status in 200..=299.
    pub fn delivery_result(outcome: TransportOutcome) -> (result: Result<(), DeliveryError>)
        ensures
            result == delivery_of(outcome),
    {
        match outcome {
            TransportOutcome::Responded { status } => {
                if 200 <= status && status <= 299 {
                    Ok(())
                } else {
                    Err(DeliveryError::RemoteRejected { status })
                }
            },
            TransportOutcome::TimedOut => Err(DeliveryError::Transport),
            TransportOutcome::Failed => Err(DeliveryError::Transport),
        }
    }
}

} // verus!
