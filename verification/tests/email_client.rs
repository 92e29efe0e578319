use newsletter::domain::SubscriberEmail;
use newsletter::email_client::{
    DeliveryError, EmailClient, EmailRequest, SendEmailRequest, TransportOutcome,
};
use newsletter::secret::SecretString;

const TIMEOUT_SEC: u64 = 10;

fn email(text: &str) -> SubscriberEmail {
    SubscriberEmail::parse(text.to_string()).unwrap()
}

fn email_client(base_url: &str) -> EmailClient {
    EmailClient::new(
        base_url.to_string(),
        email("sender@example.com"),
        SecretString::new("my-secret-token".to_string()),
        TIMEOUT_SEC,
    )
}

fn field<'r>(request: &'r EmailRequest<'_>, name: &str) -> Option<&'r str> {
    request.form.iter().find(|(key, _)| key == name).map(|(_, value)| value.as_str())
}

#[test]
fn send_email_fires_a_request_to_base_url() {
    let client = email_client("http://127.0.0.1:4000");
    let recipient = email("recipient@example.com");
    let request = client.send_email(&recipient, "A subject", "<p>content</p>", "content");

    assert_eq!(request.method, "POST");
    assert_eq!(request.url, "http://127.0.0.1:4000/email");
    assert_eq!(request.content_type, "application/x-www-form-urlencoded");
    // the authorization header is made of these two
    assert_eq!(request.username, "api");
    assert_eq!(request.password.expose_secret(), "my-secret-token");
    // all the mandatory fields are there
    assert!(field(&request, "From").is_some());
    assert!(field(&request, "To").is_some());
    assert!(field(&request, "Subject").is_some());
    assert!(field(&request, "HtmlBody").is_some());
    assert!(field(&request, "TextBody").is_some());

    let outcome = EmailClient::delivery_result(TransportOutcome::Responded { status: 200 });
    assert!(outcome.is_ok());
}

#[test]
fn send_email_fails_if_the_server_returns_500() {
    let outcome = EmailClient::delivery_result(TransportOutcome::Responded { status: 500 });
    assert!(outcome.is_err());
    assert_eq!(outcome, Err(DeliveryError::RemoteRejected { status: 500 }));
}

#[test]
fn send_email_times_out_if_the_server_takes_too_long() {
    let client = email_client("http://127.0.0.1:4000");
    let recipient = email("recipient@example.com");
    let request = client.send_email(&recipient, "A subject", "<p>content</p>", "content");
    assert_eq!(request.timeout_sec, 10);

    let outcome = EmailClient::delivery_result(TransportOutcome::TimedOut);
    assert!(outcome.is_err());
    assert_eq!(outcome, Err(DeliveryError::Transport));
}

#[test]
fn a_broken_connection_is_a_transport_error() {
    assert_eq!(
        EmailClient::delivery_result(TransportOutcome::Failed),
        Err(DeliveryError::Transport)
    );
}

#[test]
fn only_a_2xx_status_delivers() {
    for status in [200u16, 201, 202, 204, 299] {
        assert_eq!(EmailClient::delivery_result(TransportOutcome::Responded { status }), Ok(()));
    }
    for status in [0u16, 100, 199, 300, 301, 304, 400, 401, 404, 422, 500, 503, 599, 65535] {
        assert_eq!(
            EmailClient::delivery_result(TransportOutcome::Responded { status }),
            Err(DeliveryError::RemoteRejected { status })
        );
    }
}

#[test]
fn the_request_carries_the_message_field_by_field() {
    let client = email_client("https://api.postmarkapp.com");
    let recipient = email("ursula_le_guin@gmail.com");
    let request = client.send_email(&recipient, "Welcome!", "<b>hello</b>", "hello");

    let form: Vec<(&str, &str)> =
        request.form.iter().map(|(name, value)| (name.as_str(), value.as_str())).collect();
    assert_eq!(
        form,
        vec![
            ("From", "sender@example.com"),
            ("To", "ursula_le_guin@gmail.com"),
            ("Subject", "Welcome!"),
            ("HtmlBody", "<b>hello</b>"),
            ("TextBody", "hello"),
        ]
    );
    assert_eq!(request.url, "https://api.postmarkapp.com/email");
}

#[test]
fn params_names_the_five_fields() {
    let request = SendEmailRequest {
        from: "a@example.com",
        to: "b@example.com",
        subject: "s",
        html_body: "h",
        text_body: "t",
    };
    let params = request.params();
    let names: Vec<&str> = params.iter().map(|(name, _)| name.as_str()).collect();
    assert_eq!(names, vec!["From", "To", "Subject", "HtmlBody", "TextBody"]);
    let values: Vec<&str> = params.iter().map(|(_, value)| *value).collect();
    assert_eq!(values, vec!["a@example.com", "b@example.com", "s", "h", "t"]);
}

#[test]
fn no_two_params_share_a_name() {
    let request =
        SendEmailRequest { from: "x", to: "x", subject: "x", html_body: "x", text_body: "x" };
    let params = request.params();
    for (i, (name, _)) in params.iter().enumerate() {
        for (other, _) in params.iter().skip(i + 1) {
            assert_ne!(name, other);
        }
    }
}

#[test]
fn a_secret_gives_back_what_went_in() {
    let secret = SecretString::new("p4ssw0rd".to_string());
    assert_eq!(secret.expose_secret(), "p4ssw0rd");
    let empty = SecretString::new(String::new());
    assert_eq!(empty.expose_secret(), "");
}

#[test]
fn a_secret_stays_out_of_debug_output() {
    let client = email_client("http://127.0.0.1:4000");
    let recipient = email("recipient@example.com");
    let request = client.send_email(&recipient, "A subject", "<p>content</p>", "content");
    assert!(!format!("{:?}", client).contains("my-secret-token"));
    assert!(!format!("{:?}", request).contains("my-secret-token"));
    assert!(!format!("{:?}", SecretString::new("my-secret-token".to_string()))
        .contains("my-secret-token"));
}
