//! One onboarding from the form to the answer, against the in-memory store.
//!
//! [`onboard`] drives an [`Onboarding`] the way every driver must: it performs
//! each action, and reports what came of it. The provider's part is given in
//! advance, as the outcome of the one request that a delivery makes.

use crate::domain::{
    is_valid_email, is_valid_name, lemma_email_needs_at_sign, lemma_name_is_not_blank,
    ConfirmationToken,
};
use crate::email_client::{
    delivery_of, delivery_request, is_success, DeliveryError, EmailClient, EmailClientView,
    EmailRequest, EmailRequestView, TransportOutcome,
};
use crate::onboarding::{
    confirmation_message, delivery_response, lemma_distinct_tokens_distinct_messages, validated,
    Action, EmailMessageView, Event, NewSubscriberView, Onboarding, OnboardingError, Submission,
    SubmissionView,
};
use crate::store::{
    holds_email, holds_token, lemma_row_of_email, lemma_upserted, row_of_email, row_of_token,
    token_taken, upserted, well_formed, SubscriberView, SubscriptionStatus, SubscriptionStore,
};
use vstd::prelude::*;
use vstd::string::*;

verus! {

/// How an onboarding ended: the requests that went to the provider, and the
/// answer to the visitor.
#[derive(Debug)]
pub struct Onboarded<'a> {
    pub sent: Vec<EmailRequest<'a>>,
    pub response: Result<(), OnboardingError>,
}

/// What an [`Onboarded`] says.
pub struct OnboardedView {
    pub sent: Seq<EmailRequestView>,
    pub response: Result<(), OnboardingError>,
}

impl<'a> View for Onboarded<'a> {
    type V = OnboardedView;

    open spec fn view(&self) -> OnboardedView {
        OnboardedView {
            sent: Seq::new(self.sent@.len(), |i: int| self.sent@[i]@),
            response: self.response,
        }
    }
}

/// The request by which a client delivers a message.
pub open spec fn request_for(client: EmailClientView, message: EmailMessageView) -> EmailRequestView {
    delivery_request(
        client,
        message.recipient,
        message.subject,
        message.html_body,
        message.text_body,
    )
}

/// What an onboarding does to the store, sends and answers.
///
/// An invalid submission is answered at once. A valid one is written to the
/// store; if the store refuses, the visitor is told and nothing is sent. Once
/// it is written, the one request that delivers the confirmation email is
/// made, and the visitor is told whether the provider took it. The row stays
/// whatever the provider says.
pub open spec fn onboarding_of(
    rows: Seq<SubscriberView>,
    client: EmailClientView,
    link_base: Seq<char>,
    form: SubmissionView,
    token: Seq<char>,
    now: u64,
    provider: TransportOutcome,
) -> (Seq<SubscriberView>, OnboardedView) {
    match validated(form) {
        Err(e) => (
            rows,
            OnboardedView {
                sent: Seq::empty(),
                response: Err(OnboardingError::InvalidInput(e)),
            },
        ),
        Ok(subscriber) => match upserted(rows, subscriber, token, now) {
            Err(_) => (
                rows,
                OnboardedView { sent: Seq::empty(), response: Err(OnboardingError::Storage) },
            ),
            Ok(written) => (
                written,
                OnboardedView {
                    sent: seq![
                        request_for(
                            client,
                            confirmation_message(link_base, subscriber.email, token),
                        ),
                    ],
                    response: delivery_response(delivery_of(provider)),
                },
            ),
        },
    }
}

/// Runs one onboarding to its end: `store` takes the writes, `client` prepares
/// the delivery, and the provider answers the request with `provider`.
pub fn onboard<'a>(
    store: &mut SubscriptionStore,
    client: &'a EmailClient,
    link_base: &str,
    form: Submission,
    token: ConfirmationToken,
    now: u64,
    provider: TransportOutcome,
) -> (done: Onboarded<'a>)
    ensures
        well_formed(final(store)@),
        (final(store)@, done@) == onboarding_of(
            old(store)@,
            client@,
            link_base@,
            form@,
            token@,
            now,
            provider,
        ),
{
    proof {
        use_type_invariant(&*store);
    }
    let mut sent: Vec<EmailRequest<'a>> = Vec::new();
    let pipeline = Onboarding::new(String::from_str(link_base));
    let (pipeline, action) = pipeline.step(Event::Submitted { form, token });
    match action {
        Action::Respond(response) => {
            let done = Onboarded { sent, response };
            assert(done@.sent =~= Seq::empty());
            done
        },
        Action::Persist { subscriber, token } => {
            match store.upsert_pending(subscriber, token, now) {
                Err(_) => {
                    let (pipeline, action) = pipeline.step(Event::StoreFailed);
                    match action {
                        Action::Respond(response) => {
                            let done = Onboarded { sent, response };
                            assert(done@.sent =~= Seq::empty());
                            done
                        },
                        _ => {
                            assert(false);
                            Onboarded { sent, response: Err(OnboardingError::Storage) }
                        },
                    }
                },
                Ok(_) => {
                    let (pipeline, action) = pipeline.step(Event::Stored);
                    match action {
                        Action::Send(message) => {
                            let request = client.send_email(
                                &message.recipient,
                                message.subject.as_str(),
                                message.html_body.as_str(),
                                message.text_body.as_str(),
                            );
                            let ghost said = request@;
                            sent.push(request);
                            let delivery = EmailClient::delivery_result(provider);
                            let (_, action) = pipeline.step(Event::Delivered(delivery));
                            match action {
                                Action::Respond(response) => {
                                    let done = Onboarded { sent, response };
                                    assert(done@.sent =~= seq![said]);
                                    done
                                },
                                _ => {
                                    assert(false);
                                    Onboarded { sent, response: Err(OnboardingError::Storage) }
                                },
                            }
                        },
                        _ => {
                            assert(false);
                            Onboarded { sent, response: Err(OnboardingError::Storage) }
                        },
                    }
                },
            }
        },
        _ => {
            assert(false);
            Onboarded { sent, response: Err(OnboardingError::Storage) }
        },
    }
}

/// A valid name and a valid email, a token that the store can take and a
/// provider that answers with success: the onboarding succeeds, the subscriber
/// is in the store with the new token, and exactly one email went out, the
/// confirmation email for that token. The subscriber is pending, unless the
/// address was confirmed before: a confirmed subscriber stays confirmed.
pub proof fn lemma_valid_submission_succeeds(
    rows: Seq<SubscriberView>,
    client: EmailClientView,
    link_base: Seq<char>,
    name: Seq<char>,
    email: Seq<char>,
    token: Seq<char>,
    now: u64,
    status: u16,
)
    requires
        well_formed(rows),
        rows.len() <= u64::MAX,
        is_valid_name(name),
        is_valid_email(email),
        !token_taken(rows, email, token),
        is_success(status),
    ensures
        ({
            let form = SubmissionView { name: Some(name), email: Some(email) };
            let (after, done) = onboarding_of(
                rows,
                client,
                link_base,
                form,
                token,
                now,
                TransportOutcome::Responded { status },
            );
            let at = row_of_email(after, email);
            &&& done.response == Ok::<(), OnboardingError>(())
            &&& done.sent == seq![
                request_for(client, confirmation_message(link_base, email, token)),
            ]
            &&& well_formed(after)
            &&& holds_email(after, email)
            &&& after[at].name == name
            &&& after[at].token == token
            &&& after[at].status == if holds_email(rows, email) {
                rows[row_of_email(rows, email)].status
            } else {
                SubscriptionStatus::PendingConfirmation
            }
        }),
{
    let subscriber = NewSubscriberView { email, name };
    lemma_upserted(rows, subscriber, token, now);
}

/// A submission that is not valid is turned away with `InvalidInput` and the
/// reason: the store is left as it was, and no email goes out.
pub proof fn lemma_invalid_submission_is_turned_away(
    rows: Seq<SubscriberView>,
    client: EmailClientView,
    link_base: Seq<char>,
    form: SubmissionView,
    token: Seq<char>,
    now: u64,
    provider: TransportOutcome,
)
    requires
        validated(form) is Err,
    ensures
        ({
            let (after, done) = onboarding_of(rows, client, link_base, form, token, now, provider);
            &&& done.response == Err::<(), OnboardingError>(
                OnboardingError::InvalidInput(validated(form)->Err_0),
            )
            &&& after == rows
            &&& done.sent.len() == 0
        }),
{
}

/// Whether a submission is of a kind that is named invalid: a field is
/// missing, the name is empty or blank, or the email is empty or has no `@`.
pub open spec fn is_plainly_invalid(form: SubmissionView) -> bool {
    ||| form.name is None
    ||| form.email is None
    ||| forall|i: int| 0 <= i < form.name->0.len() ==> form.name->0[i] == ' '
    ||| forall|i: int| 0 <= i < form.email->0.len() ==> form.email->0[i] != '@'
}

/// The plainly invalid submissions are turned away with `InvalidInput`, with
/// no write and no email.
pub proof fn lemma_plainly_invalid_is_turned_away(
    rows: Seq<SubscriberView>,
    client: EmailClientView,
    link_base: Seq<char>,
    form: SubmissionView,
    token: Seq<char>,
    now: u64,
    provider: TransportOutcome,
)
    requires
        is_plainly_invalid(form),
    ensures
        ({
            let (after, done) = onboarding_of(rows, client, link_base, form, token, now, provider);
            &&& done.response matches Err(OnboardingError::InvalidInput(_))
            &&& after == rows
            &&& done.sent.len() == 0
        }),
{
    if form.name is Some && form.email is Some {
        if is_valid_name(form.name->0) {
            lemma_name_is_not_blank(form.name->0);
        }
        if is_valid_email(form.email->0) {
            lemma_email_needs_at_sign(form.email->0);
        }
    }
}

/// A delivery that fails, by a timeout, a broken connection or a status that
/// is no success, is reported as `DeliveryFailed` and undoes nothing: the
/// store holds what it would hold after a success, so the subscriber is there
/// with the token of the email, and the one request was made.
pub proof fn lemma_failed_delivery_keeps_the_subscriber(
    rows: Seq<SubscriberView>,
    client: EmailClientView,
    link_base: Seq<char>,
    name: Seq<char>,
    email: Seq<char>,
    token: Seq<char>,
    now: u64,
    provider: TransportOutcome,
)
    requires
        well_formed(rows),
        rows.len() <= u64::MAX,
        is_valid_name(name),
        is_valid_email(email),
        !token_taken(rows, email, token),
        delivery_of(provider) is Err,
    ensures
        ({
            let form = SubmissionView { name: Some(name), email: Some(email) };
            let (after, done) = onboarding_of(rows, client, link_base, form, token, now, provider);
            let at = row_of_email(after, email);
            &&& done.response == Err::<(), OnboardingError>(
                OnboardingError::DeliveryFailed(delivery_of(provider)->Err_0),
            )
            &&& provider is TimedOut ==> done.response == Err::<(), OnboardingError>(
                OnboardingError::DeliveryFailed(DeliveryError::Transport),
            )
            &&& done.sent == seq![
                request_for(client, confirmation_message(link_base, email, token)),
            ]
            &&& after == onboarding_of(
                rows,
                client,
                link_base,
                form,
                token,
                now,
                TransportOutcome::Responded { status: 200 },
            ).0
            &&& well_formed(after)
            &&& holds_email(after, email)
            &&& after[at].token == token
            &&& after[at].status == if holds_email(rows, email) {
                rows[row_of_email(rows, email)].status
            } else {
                SubscriptionStatus::PendingConfirmation
            }
        }),
{
    let subscriber = NewSubscriberView { email, name };
    lemma_upserted(rows, subscriber, token, now);
}

/// When the store does not take the write, the onboarding ends with `Storage`:
/// the store is left as it was, and no email goes out.
pub proof fn lemma_store_failure_sends_nothing(
    rows: Seq<SubscriberView>,
    client: EmailClientView,
    link_base: Seq<char>,
    form: SubmissionView,
    token: Seq<char>,
    now: u64,
    provider: TransportOutcome,
)
    requires
        validated(form) matches Ok(subscriber) && upserted(rows, subscriber, token, now) is Err,
    ensures
        ({
            let (after, done) = onboarding_of(rows, client, link_base, form, token, now, provider);
            &&& done.response == Err::<(), OnboardingError>(OnboardingError::Storage)
            &&& after == rows
            &&& done.sent.len() == 0
        }),
{
}

/// The same address submitted twice, with two different tokens: the second
/// onboarding makes no second row, and leaves the subscriber's identifier and
/// status as they were; the store then holds the second token and no longer
/// the first; and each onboarding sent one email, the two with different
/// links.
pub proof fn lemma_resubmission_is_idempotent(
    rows: Seq<SubscriberView>,
    client: EmailClientView,
    link_base: Seq<char>,
    first_name: Seq<char>,
    second_name: Seq<char>,
    email: Seq<char>,
    first_token: Seq<char>,
    second_token: Seq<char>,
    first_now: u64,
    second_now: u64,
    first_provider: TransportOutcome,
    second_provider: TransportOutcome,
)
    requires
        well_formed(rows),
        rows.len() < u64::MAX,
        is_valid_name(first_name),
        is_valid_name(second_name),
        is_valid_email(email),
        first_token != second_token,
        !token_taken(rows, email, first_token),
        !token_taken(rows, email, second_token),
    ensures
        ({
            let first_form = SubmissionView { name: Some(first_name), email: Some(email) };
            let second_form = SubmissionView { name: Some(second_name), email: Some(email) };
            let (once, first) = onboarding_of(
                rows,
                client,
                link_base,
                first_form,
                first_token,
                first_now,
                first_provider,
            );
            let (twice, second) = onboarding_of(
                once,
                client,
                link_base,
                second_form,
                second_token,
                second_now,
                second_provider,
            );
            let at = row_of_email(once, email);
            &&& well_formed(twice)
            &&& twice.len() == once.len()
            &&& holds_email(twice, email)
            &&& row_of_email(twice, email) == at
            &&& forall|i: int| 0 <= i < twice.len() && twice[i].email == email ==> i == at
            &&& twice[at].id == once[at].id
            &&& twice[at].status == once[at].status
            &&& once[at].token == first_token
            &&& twice[at].token == second_token
            &&& !holds_token(twice, first_token)
            &&& first.sent.len() == 1
            &&& second.sent.len() == 1
            &&& first.sent[0] != second.sent[0]
            &&& first.sent[0].form[3] != second.sent[0].form[3]
            &&& first.sent[0].form[4] != second.sent[0].form[4]
        }),
{
    let first_subscriber = NewSubscriberView { email, name: first_name };
    let second_subscriber = NewSubscriberView { email, name: second_name };
    lemma_upserted(rows, first_subscriber, first_token, first_now);
    let once = upserted(rows, first_subscriber, first_token, first_now)->Ok_0;
    let at = row_of_email(once, email);
    assert(!token_taken(once, email, second_token)) by {
        if token_taken(once, email, second_token) {
            let i = choose|i: int|
                0 <= i < once.len() && (#[trigger] once[i]).token == second_token && once[i].email
                    != email;
            assert(i != at);
            assert(once[i] == rows[i]);
            assert(rows[i].token == second_token && rows[i].email != email);
        }
    }
    lemma_upserted(once, second_subscriber, second_token, second_now);
    let twice = upserted(once, second_subscriber, second_token, second_now)->Ok_0;
    assert forall|i: int| 0 <= i < twice.len() && twice[i].email == email implies i == at by {
        lemma_row_of_email(twice, i);
    }
    assert(!holds_token(twice, first_token)) by {
        if holds_token(twice, first_token) {
            let i = row_of_token(twice, first_token);
            assert(0 <= i < twice.len() && twice[i].token == first_token);
            assert(i != at);
            assert(twice[i] == once[i]);
            assert(once[i].token == once[at].token);
            if i < at {
                assert(once[i].token != once[at].token);
            } else {
                assert(once[at].token != once[i].token);
            }
        }
    }
    lemma_distinct_tokens_distinct_messages(link_base, email, first_token, second_token);
}

} // verus!
