//! The onboarding of a subscriber, as a state machine without I/O.
//!
//! One [`Onboarding`] handles one submission. It is fed [`Event`]s and answers
//! each with the [`Action`] that its driver is to perform next: write to the
//! store, send the confirmation email, answer the visitor. The store and the
//! network stay with the driver; every decision is taken here.

use crate::domain::{
    is_valid_email, is_valid_name, ConfirmationToken, InputError, SubscriberEmail, SubscriberName,
};
use crate::email_client::DeliveryError;
use vstd::prelude::*;
use vstd::string::*;

verus! {

/// Why an onboarding failed.
#[derive(Clone, Copy, Debug, PartialEq, Eq, Structural)]
pub enum OnboardingError {
    /// The submission was turned away; nothing was written or sent.
    InvalidInput(InputError),
    /// The store did not take the subscriber; nothing was written or sent.
    Storage,
    /// The subscriber is stored, pending, but the email did not go out.
    DeliveryFailed(DeliveryError),
}

/// The two fields of the subscription form, each as it was submitted, if it
/// was.
#[derive(Debug)]
pub struct Submission {
    pub name: Option<String>,
    pub email: Option<String>,
}

/// What a [`Submission`] says.
pub struct SubmissionView {
    pub name: Option<Seq<char>>,
    pub email: Option<Seq<char>>,
}

impl View for Submission {
    type V = SubmissionView;

    open spec fn view(&self) -> SubmissionView {
        SubmissionView {
            name: match self.name {
                Some(name) => Some(name@),
                None => None,
            },
            email: match self.email {
                Some(email) => Some(email@),
                None => None,
            },
        }
    }
}

/// A subscriber who is not stored yet.
#[derive(Debug)]
pub struct NewSubscriber {
    pub email: SubscriberEmail,
    pub name: SubscriberName,
}

/// What a [`NewSubscriber`] says.
pub struct NewSubscriberView {
    pub email: Seq<char>,
    pub name: Seq<char>,
}

impl View for NewSubscriber {
    type V = NewSubscriberView;

    open spec fn view(&self) -> NewSubscriberView {
        NewSubscriberView { email: self.email@, name: self.name@ }
    }
}

/// The verdict on a submission. Both fields must be there, the name is looked
/// at before the email, and the first fault decides.
pub open spec fn validated(form: SubmissionView) -> Result<NewSubscriberView, InputError> {
    match form.name {
        None => Err(InputError::MissingName),
        Some(name) => match form.email {
            None => Err(InputError::MissingEmail),
            Some(email) => if !is_valid_name(name) {
                Err(InputError::InvalidName)
            } else if !is_valid_email(email) {
                Err(InputError::InvalidEmail)
            } else {
                Ok(NewSubscriberView { email, name })
            },
        },
    }
}

impl NewSubscriber {
    /// Checks a submission.
    pub fn parse(form: Submission) -> (parsed: Result<NewSubscriber, InputError>)
        ensures
            match parsed {
                Ok(subscriber) => validated(form@) == Ok::<NewSubscriberView, InputError>(
                    subscriber@,
                ),
                Err(e) => validated(form@) == Err::<NewSubscriberView, InputError>(e),
            },
    {
        let Submission { name, email } = form;
        match name {
            None => Err(InputError::MissingName),
            Some(name) => match email {
                None => Err(InputError::MissingEmail),
                Some(email) => match SubscriberName::parse(name) {
                    Err(e) => Err(e),
                    Ok(name) => match SubscriberEmail::parse(email) {
                        Err(e) => Err(e),
                        Ok(email) => Ok(NewSubscriber { email, name }),
                    },
                },
            },
        }
    }
}

/// The link that confirms a subscription: the service's base URL, the path of
/// the confirmation endpoint, and the token as its one query parameter.
pub open spec fn confirmation_link(link_base: Seq<char>, token: Seq<char>) -> Seq<char> {
    link_base + "/subscriptions/confirm?subscription_token="@ + token
}

/// The HTML body of the confirmation email for a link.
pub open spec fn html_body(link: Seq<char>) -> Seq<char> {
    "Welcome to our newsletter!<br />Click <a href=\""@ + link
        + "\">here</a> to confirm your subscription."@
}

/// The plain-text body of the confirmation email for a link.
pub open spec fn text_body(link: Seq<char>) -> Seq<char> {
    "Welcome to our newsletter!\nVisit "@ + link + " to confirm your subscription."@
}

/// An email message, before it is handed to the delivery client.
#[derive(Debug)]
pub struct EmailMessage {
    pub recipient: SubscriberEmail,
    pub subject: String,
    pub html_body: String,
    pub text_body: String,
}

/// What an [`EmailMessage`] says.
pub struct EmailMessageView {
    pub recipient: Seq<char>,
    pub subject: Seq<char>,
    pub html_body: Seq<char>,
    pub text_body: Seq<char>,
}

impl View for EmailMessage {
    type V = EmailMessageView;

    open spec fn view(&self) -> EmailMessageView {
        EmailMessageView {
            recipient: self.recipient@,
            subject: self.subject@,
            html_body: self.html_body@,
            text_body: self.text_body@,
        }
    }
}

/// The confirmation email for a subscriber and a token.
pub open spec fn confirmation_message(
    link_base: Seq<char>,
    recipient: Seq<char>,
    token: Seq<char>,
) -> EmailMessageView {
    EmailMessageView {
        recipient,
        subject: "Welcome!"@,
        html_body: html_body(confirmation_link(link_base, token)),
        text_body: text_body(confirmation_link(link_base, token)),
    }
}

impl EmailMessage {
    /// Writes the confirmation email: both bodies carry the one link made of
    /// `link_base` and `token`.
    pub fn confirmation(
        link_base: &str,
        recipient: SubscriberEmail,
        token: &ConfirmationToken,
    ) -> (message: EmailMessage)
        ensures
            message@ == confirmation_message(link_base@, recipient@, token@),
    {
        let mut link = String::from_str(link_base);
        link.append("/subscriptions/confirm?subscription_token=");
        link.append(token.as_ref());
        let mut html = String::from_str("Welcome to our newsletter!<br />Click <a href=\"");
        html.append(link.as_str());
        html.append("\">here</a> to confirm your subscription.");
        let mut text = String::from_str("Welcome to our newsletter!\nVisit ");
        text.append(link.as_str());
        text.append(" to confirm your subscription.");
        EmailMessage {
            recipient,
            subject: String::from_str("Welcome!"),
            html_body: html,
            text_body: text,
        }
    }
}

/// What the driver reports to the pipeline.
#[derive(Debug)]
pub enum Event {
    /// A visitor submitted the form; `token` is fresh from the driver's
    /// source of randomness.
    Submitted { form: Submission, token: ConfirmationToken },
    /// The subscriber and the token are committed to the store.
    Stored,
    /// The store did not take the write; nothing of it is left.
    StoreFailed,
    /// The delivery client has judged the outcome of the request.
    Delivered(Result<(), DeliveryError>),
}

/// What an [`Event`] says.
pub enum EventView {
    Submitted { form: SubmissionView, token: Seq<char> },
    Stored,
    StoreFailed,
    Delivered(Result<(), DeliveryError>),
}

impl View for Event {
    type V = EventView;

    open spec fn view(&self) -> EventView {
        match self {
            Event::Submitted { form, token } => EventView::Submitted {
                form: form@,
                token: token@,
            },
            Event::Stored => EventView::Stored,
            Event::StoreFailed => EventView::StoreFailed,
            Event::Delivered(result) => EventView::Delivered(*result),
        }
    }
}

/// What the pipeline asks of its driver.
#[derive(Debug)]
pub enum Action {
    /// Write the subscriber, pending, and the token that belongs to it, as one
    /// atomic unit; then report `Stored` or `StoreFailed`.
    Persist { subscriber: NewSubscriber, token: ConfirmationToken },
    /// Send this message, once; then report `Delivered`.
    Send(EmailMessage),
    /// The onboarding is over: answer the visitor.
    Respond(Result<(), OnboardingError>),
    /// The event was not awaited: do nothing.
    Nothing,
}

/// What an [`Action`] says.
pub enum ActionView {
    Persist { subscriber: NewSubscriberView, token: Seq<char> },
    Send(EmailMessageView),
    Respond(Result<(), OnboardingError>),
    Nothing,
}

impl View for Action {
    type V = ActionView;

    open spec fn view(&self) -> ActionView {
        match self {
            Action::Persist { subscriber, token } => ActionView::Persist {
                subscriber: subscriber@,
                token: token@,
            },
            Action::Send(message) => ActionView::Send(message@),
            Action::Respond(result) => ActionView::Respond(*result),
            Action::Nothing => ActionView::Nothing,
        }
    }
}

/// How far an onboarding has come.
#[derive(Debug)]
pub enum Stage {
    /// Nothing was submitted yet.
    Idle,
    /// The write is under way; the message waits for it.
    Storing(EmailMessage),
    /// The write is committed and the message is on its way.
    Delivering,
    /// The visitor has the answer.
    Finished,
}

/// What a [`Stage`] says.
pub enum StageView {
    Idle,
    Storing(EmailMessageView),
    Delivering,
    Finished,
}

impl View for Stage {
    type V = StageView;

    open spec fn view(&self) -> StageView {
        match self {
            Stage::Idle => StageView::Idle,
            Stage::Storing(message) => StageView::Storing(message@),
            Stage::Delivering => StageView::Delivering,
            Stage::Finished => StageView::Finished,
        }
    }
}

/// What an [`Onboarding`] says.
pub struct OnboardingView {
    pub link_base: Seq<char>,
    pub stage: StageView,
}

/// The answer to a delivery: a failure is passed on, never swallowed.
pub open spec fn delivery_response(delivery: Result<(), DeliveryError>) -> Result<
    (),
    OnboardingError,
> {
    match delivery {
        Ok(_) => Ok(()),
        Err(e) => Err(OnboardingError::DeliveryFailed(e)),
    }
}

/// The pipeline's rule: the next state and the action, for a state and an
/// event.
///
/// - Idle, on a submission: an invalid one is answered at once; a valid one
///   has its confirmation email written and is to be persisted.
/// - Storing, on `Stored`: the email is to be sent. On `StoreFailed`: the
///   visitor is told, and no email goes out.
/// - Delivering, on `Delivered`: the visitor is told how it went.
/// - Every other event is not awaited, and changes nothing.
pub open spec fn transition(state: OnboardingView, event: EventView) -> (
    OnboardingView,
    ActionView,
) {
    let finished = OnboardingView { link_base: state.link_base, stage: StageView::Finished };
    match (state.stage, event) {
        (StageView::Idle, EventView::Submitted { form, token }) => match validated(form) {
            Err(e) => (finished, ActionView::Respond(Err(OnboardingError::InvalidInput(e)))),
            Ok(subscriber) => (
                OnboardingView {
                    link_base: state.link_base,
                    stage: StageView::Storing(
                        confirmation_message(state.link_base, subscriber.email, token),
                    ),
                },
                ActionView::Persist { subscriber, token },
            ),
        },
        (StageView::Storing(message), EventView::Stored) => (
            OnboardingView { link_base: state.link_base, stage: StageView::Delivering },
            ActionView::Send(message),
        ),
        (StageView::Storing(_), EventView::StoreFailed) => (
            finished,
            ActionView::Respond(Err(OnboardingError::Storage)),
        ),
        (StageView::Delivering, EventView::Delivered(delivery)) => (
            finished,
            ActionView::Respond(delivery_response(delivery)),
        ),
        _ => (state, ActionView::Nothing),
    }
}

/// The onboarding of one submission.
#[derive(Debug)]
pub struct Onboarding {
    link_base: String,
    stage: Stage,
}

impl View for Onboarding {
    type V = OnboardingView;

    closed spec fn view(&self) -> OnboardingView {
        OnboardingView { link_base: self.link_base@, stage: self.stage@ }
    }
}

impl Onboarding {
    /// An idle pipeline, whose confirmation links start with `link_base`.
    pub fn new(link_base: String) -> (pipeline: Onboarding)
        ensures
            pipeline@ == (OnboardingView { link_base: link_base@, stage: StageView::Idle }),
    {
        Onboarding { link_base, stage: Stage::Idle }
    }

    /// How far the onboarding has come.
    pub fn stage(&self) -> (stage: &Stage)
        ensures
            stage@ == self@.stage,
    {
        &self.stage
    }

    /// Takes one event: the pipeline moves on and says what is to be done
    /// next, as [`transition`] rules.
    pub fn step(self, event: Event) -> (next: (Onboarding, Action))
        ensures
            (next.0@, next.1@) == transition(self@, event@),
    {
        let Onboarding { link_base, stage } = self;
        match stage {
            Stage::Idle => match event {
                Event::Submitted { form, token } => match NewSubscriber::parse(form) {
                    Err(e) => (
                        Onboarding { link_base, stage: Stage::Finished },
                        Action::Respond(Err(OnboardingError::InvalidInput(e))),
                    ),
                    Ok(subscriber) => {
                        let message = EmailMessage::confirmation(
                            link_base.as_str(),
                            subscriber.email.clone(),
                            &token,
                        );
                        (
                            Onboarding { link_base, stage: Stage::Storing(message) },
                            Action::Persist { subscriber, token },
                        )
                    },
                },
                _ => (Onboarding { link_base, stage: Stage::Idle }, Action::Nothing),
            },
            Stage::Storing(message) => match event {
                Event::Stored => (
                    Onboarding { link_base, stage: Stage::Delivering },
                    Action::Send(message),
                ),
                Event::StoreFailed => (
                    Onboarding { link_base, stage: Stage::Finished },
                    Action::Respond(Err(OnboardingError::Storage)),
                ),
                _ => (Onboarding { link_base, stage: Stage::Storing(message) }, Action::Nothing),
            },
            Stage::Delivering => match event {
                Event::Delivered(delivery) => {
                    let response = match delivery {
                        Ok(_) => Ok(()),
                        Err(e) => Err(OnboardingError::DeliveryFailed(e)),
                    };
                    (Onboarding { link_base, stage: Stage::Finished }, Action::Respond(response))
                },
                _ => (Onboarding { link_base, stage: Stage::Delivering }, Action::Nothing),
            },
            Stage::Finished => (Onboarding { link_base, stage: Stage::Finished }, Action::Nothing),
        }
    }
}

/// The HTTP status that answers the visitor: 200 for a success, 400 for a
/// submission that was turned away, 500 for a fault of the store or of the
/// delivery.
pub open spec fn status_of(response: Result<(), OnboardingError>) -> u16 {
    match response {
        Ok(_) => 200,
        Err(OnboardingError::InvalidInput(_)) => 400,
        Err(OnboardingError::Storage) => 500,
        Err(OnboardingError::DeliveryFailed(_)) => 500,
    }
}

/// The HTTP status for an answer.
pub fn response_status(response: &Result<(), OnboardingError>) -> (status: u16)
    ensures
        status == status_of(*response),
{
    match response {
        Ok(_) => 200,
        Err(OnboardingError::InvalidInput(_)) => 400,
        Err(OnboardingError::Storage) => 500,
        Err(OnboardingError::DeliveryFailed(_)) => 500,
    }
}

/// Where the link starts in the HTML body.
pub const HTML_LINK_OFFSET: usize = 47;

/// Where the link starts in the plain-text body.
pub const TEXT_LINK_OFFSET: usize = 33;

/// The HTML body and the plain-text body of a confirmation email carry the
/// same link, character for character: the one made of the link base and the
/// token.
pub proof fn lemma_bodies_carry_the_same_link(
    link_base: Seq<char>,
    recipient: Seq<char>,
    token: Seq<char>,
)
    ensures
        ({
            let message = confirmation_message(link_base, recipient, token);
            let link = confirmation_link(link_base, token);
            &&& message.html_body.subrange(
                HTML_LINK_OFFSET as int,
                HTML_LINK_OFFSET + link.len(),
            ) == link
            &&& message.text_body.subrange(
                TEXT_LINK_OFFSET as int,
                TEXT_LINK_OFFSET + link.len(),
            ) == link
            &&& message.html_body[HTML_LINK_OFFSET + link.len()] == '"'
            &&& message.text_body[TEXT_LINK_OFFSET + link.len()] == ' '
        }),
{
    reveal_strlit("Welcome to our newsletter!<br />Click <a href=\"");
    reveal_strlit("\">here</a> to confirm your subscription.");
    reveal_strlit("Welcome to our newsletter!\nVisit ");
    reveal_strlit(" to confirm your subscription.");
    let message = confirmation_message(link_base, recipient, token);
    let link = confirmation_link(link_base, token);
    assert(message.html_body.subrange(HTML_LINK_OFFSET as int, HTML_LINK_OFFSET + link.len())
        =~= link);
    assert(message.text_body.subrange(TEXT_LINK_OFFSET as int, TEXT_LINK_OFFSET + link.len())
        =~= link);
}

/// Different tokens make different links, and so different emails.
pub proof fn lemma_distinct_tokens_distinct_messages(
    link_base: Seq<char>,
    recipient: Seq<char>,
    first: Seq<char>,
    second: Seq<char>,
)
    requires
        first != second,
    ensures
        confirmation_link(link_base, first) != confirmation_link(link_base, second),
        confirmation_message(link_base, recipient, first).html_body != confirmation_message(
            link_base,
            recipient,
            second,
        ).html_body,
        confirmation_message(link_base, recipient, first).text_body != confirmation_message(
            link_base,
            recipient,
            second,
        ).text_body,
{
    let head = link_base + "/subscriptions/confirm?subscription_token="@;
    let one = confirmation_link(link_base, first);
    let two = confirmation_link(link_base, second);
    assert(one.subrange(head.len() as int, one.len() as int) =~= first);
    assert(two.subrange(head.len() as int, two.len() as int) =~= second);
    lemma_bodies_carry_the_same_link(link_base, recipient, first);
    lemma_bodies_carry_the_same_link(link_base, recipient, second);
    let html_one = confirmation_message(link_base, recipient, first).html_body;
    let html_two = confirmation_message(link_base, recipient, second).html_body;
    let text_one = confirmation_message(link_base, recipient, first).text_body;
    let text_two = confirmation_message(link_base, recipient, second).text_body;
    reveal_strlit("Welcome to our newsletter!<br />Click <a href=\"");
    reveal_strlit("\">here</a> to confirm your subscription.");
    reveal_strlit("Welcome to our newsletter!\nVisit ");
    reveal_strlit(" to confirm your subscription.");
    if html_one == html_two {
        assert(one.len() == two.len());
        assert(one == two);
    }
    if text_one == text_two {
        assert(one.len() == two.len());
        assert(one == two);
    }
}

/// An idle pipeline.
pub open spec fn idle(link_base: Seq<char>) -> OnboardingView {
    OnboardingView { link_base, stage: StageView::Idle }
}

/// The state that a pipeline reaches through a sequence of events, and the
/// actions that it asks for on the way, one for each event.
pub open spec fn run(state: OnboardingView, events: Seq<EventView>) -> (
    OnboardingView,
    Seq<ActionView>,
)
    decreases events.len(),
{
    if events.len() == 0 {
        (state, Seq::empty())
    } else {
        let (before, actions) = run(state, events.drop_last());
        let (after, action) = transition(before, events.last());
        (after, actions.push(action))
    }
}

/// The number of messages that a sequence of actions sends.
pub open spec fn count_sends(actions: Seq<ActionView>) -> nat
    decreases actions.len(),
{
    if actions.len() == 0 {
        0
    } else {
        count_sends(actions.drop_last()) + if actions.last() is Send {
            1nat
        } else {
            0nat
        }
    }
}

/// A run answers every event with one action, and keeps its link base.
pub proof fn lemma_run_shape(state: OnboardingView, events: Seq<EventView>)
    ensures
        run(state, events).1.len() == events.len(),
        run(state, events).0.link_base == state.link_base,
    decreases events.len(),
{
    if events.len() > 0 {
        lemma_run_shape(state, events.drop_last());
    }
}

/// Whatever the driver reports, and in whatever order, one onboarding sends at
/// most one email; and as long as the write is not committed, it has sent
/// none.
pub proof fn lemma_at_most_one_send(link_base: Seq<char>, events: Seq<EventView>)
    ensures
        count_sends(run(idle(link_base), events).1) <= 1,
        run(idle(link_base), events).0.stage is Idle || run(idle(link_base), events).0.stage
            is Storing ==> count_sends(run(idle(link_base), events).1) == 0,
    decreases events.len(),
{
    if events.len() > 0 {
        lemma_at_most_one_send(link_base, events.drop_last());
        let (before, actions) = run(idle(link_base), events.drop_last());
        let (after, action) = transition(before, events.last());
        assert(actions.push(action).drop_last() =~= actions);
    }
}

/// Whether an action asks to persist the subscriber and the token that
/// `message` is the confirmation email of.
pub open spec fn persists_what_it_confirms(
    action: ActionView,
    link_base: Seq<char>,
    message: EmailMessageView,
) -> bool {
    match action {
        ActionView::Persist { subscriber, token } => message == confirmation_message(
            link_base,
            subscriber.email,
            token,
        ),
        _ => false,
    }
}

/// The actions of a run's first events are the run's first actions.
pub proof fn lemma_run_prefix(state: OnboardingView, events: Seq<EventView>, n: int)
    requires
        0 <= n <= events.len(),
    ensures
        run(state, events.take(n)).1 == run(state, events).1.take(n),
    decreases events.len() - n,
{
    lemma_run_shape(state, events);
    if n == events.len() {
        assert(events.take(n) =~= events);
        assert(run(state, events).1.take(n) =~= run(state, events).1);
    } else {
        lemma_run_prefix(state, events, n + 1);
        lemma_run_shape(state, events.take(n + 1));
        lemma_run_shape(state, events.take(n));
        assert(events.take(n + 1).drop_last() =~= events.take(n));
        assert(run(state, events.take(n)).1 =~= run(state, events).1.take(n));
    }
}

/// While a pipeline waits for the store, the message that it holds is the
/// confirmation email of a subscriber and a token that it has asked to
/// persist.
pub proof fn lemma_awaited_message_was_persisted(link_base: Seq<char>, events: Seq<EventView>)
    ensures
        run(idle(link_base), events).0.stage matches StageView::Storing(message) ==> exists|
            earlier: int,
        |
            0 <= earlier < events.len() && persists_what_it_confirms(
                #[trigger] run(idle(link_base), events).1[earlier],
                link_base,
                message,
            ),
    decreases events.len(),
{
    if events.len() > 0 {
        lemma_awaited_message_was_persisted(link_base, events.drop_last());
        lemma_run_shape(idle(link_base), events.drop_last());
        let (before, actions) = run(idle(link_base), events.drop_last());
        let (after, action) = transition(before, events.last());
        let all = actions.push(action);
        assert(run(idle(link_base), events) == (after, all));
        if after.stage is Storing {
            let message = after.stage->Storing_0;
            if before.stage is Storing {
                assert(before.stage->Storing_0 == message);
                let earlier = choose|earlier: int|
                    0 <= earlier < actions.len() && persists_what_it_confirms(
                        #[trigger] actions[earlier],
                        link_base,
                        message,
                    );
                assert(all[earlier] == actions[earlier]);
                assert(persists_what_it_confirms(
                    run(idle(link_base), events).1[earlier],
                    link_base,
                    message,
                ));
            } else {
                let latest = actions.len() as int;
                assert(all[latest] == action);
                assert(before.link_base == link_base);
                assert(persists_what_it_confirms(
                    run(idle(link_base), events).1[latest],
                    link_base,
                    message,
                ));
            }
        }
    }
}

/// The token is in the store before the email that names it goes out: an
/// email is sent only in answer to `Stored`, after the pipeline has asked to
/// persist the subscriber and the token of that very email.
pub proof fn lemma_send_follows_commit(link_base: Seq<char>, events: Seq<EventView>, at: int)
    requires
        0 <= at < events.len(),
        run(idle(link_base), events).1[at] is Send,
    ensures
        events[at] == EventView::Stored,
        exists|earlier: int|
            0 <= earlier < at && persists_what_it_confirms(
                #[trigger] run(idle(link_base), events).1[earlier],
                link_base,
                run(idle(link_base), events).1[at]->Send_0,
            ),
{
    lemma_awaited_message_was_persisted(link_base, events.take(at));
    lemma_run_prefix(idle(link_base), events, at);
    lemma_run_prefix(idle(link_base), events, at + 1);
    lemma_run_shape(idle(link_base), events.take(at));
    lemma_run_shape(idle(link_base), events);
    let (before, actions) = run(idle(link_base), events.take(at));
    assert(events.take(at + 1).drop_last() =~= events.take(at));
    assert(events.take(at + 1).last() == events[at]);
    let (after, action) = transition(before, events[at]);
    assert(run(idle(link_base), events.take(at + 1)).1 == actions.push(action));
    assert(run(idle(link_base), events).1.take(at + 1)[at] == action);
    assert(run(idle(link_base), events).1[at] == action);
    let message = before.stage->Storing_0;
    let earlier = choose|earlier: int|
        0 <= earlier < at && persists_what_it_confirms(
            #[trigger] actions[earlier],
            link_base,
            message,
        );
    assert(run(idle(link_base), events).1.take(at)[earlier] == actions[earlier]);
    assert(persists_what_it_confirms(
        run(idle(link_base), events).1[earlier],
        link_base,
        message,
    ));
}

/// Once the visitor has the answer, the pipeline asks for nothing more.
pub proof fn lemma_finished_is_final(state: OnboardingView, events: Seq<EventView>, at: int)
    requires
        state.stage is Finished,
        0 <= at < events.len(),
    ensures
        run(state, events).0 == state,
        run(state, events).1[at] == ActionView::Nothing,
    decreases events.len(),
{
    lemma_run_shape(state, events.drop_last());
    if events.len() > 1 {
        lemma_finished_is_final(state, events.drop_last(), 0);
    }
    if at < events.len() - 1 {
        lemma_finished_is_final(state, events.drop_last(), at);
    }
}

} // verus!
