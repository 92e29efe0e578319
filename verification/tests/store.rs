use newsletter::domain::{ConfirmationToken, SubscriberEmail, SubscriberName};
use newsletter::onboarding::NewSubscriber;
use newsletter::store::{StoreError, SubscriptionStatus, SubscriptionStore};

fn subscriber(name: &str, email: &str) -> NewSubscriber {
    NewSubscriber {
        email: SubscriberEmail::parse(email.to_string()).unwrap(),
        name: SubscriberName::parse(name.to_string()).unwrap(),
    }
}

fn token(text: &str) -> ConfirmationToken {
    ConfirmationToken::parse(text.to_string()).unwrap()
}

fn email(text: &str) -> SubscriberEmail {
    SubscriberEmail::parse(text.to_string()).unwrap()
}

#[test]
fn a_new_store_is_empty() {
    let store = SubscriptionStore::new();
    assert_eq!(store.len(), 0);
    assert!(store.find_by_email(&email("a@example.com")).is_none());
    assert!(store.find_by_token(&token("t")).is_none());
}

#[test]
fn a_new_subscriber_is_pending() {
    let mut store = SubscriptionStore::new();
    let id = store.upsert_pending(subscriber("Ann", "ann@example.com"), token("t1"), 42);
    assert_eq!(id, Ok(0));
    assert_eq!(store.len(), 1);
    let row = store.find_by_email(&email("ann@example.com")).unwrap();
    assert_eq!(row.id(), 0);
    assert_eq!(row.email().as_ref(), "ann@example.com");
    assert_eq!(row.name().as_ref(), "Ann");
    assert_eq!(row.status(), SubscriptionStatus::PendingConfirmation);
    assert_eq!(row.subscribed_at(), 42);
    assert_eq!(row.token().as_ref(), "t1");
}

#[test]
fn identifiers_count_up() {
    let mut store = SubscriptionStore::new();
    assert_eq!(store.upsert_pending(subscriber("Ann", "ann@example.com"), token("t1"), 1), Ok(0));
    assert_eq!(store.upsert_pending(subscriber("Bob", "bob@example.com"), token("t2"), 2), Ok(1));
    assert_eq!(store.upsert_pending(subscriber("Cy", "cy@example.com"), token("t3"), 3), Ok(2));
    assert_eq!(store.len(), 3);
    assert_eq!(store.find_by_token(&token("t2")).unwrap().email().as_ref(), "bob@example.com");
}

#[test]
fn a_known_email_keeps_its_row() {
    let mut store = SubscriptionStore::new();
    store.upsert_pending(subscriber("Ann", "ann@example.com"), token("t1"), 1).unwrap();
    store.upsert_pending(subscriber("Bob", "bob@example.com"), token("t2"), 2).unwrap();

    let id = store.upsert_pending(subscriber("Ann B.", "ann@example.com"), token("t3"), 99);

    assert_eq!(id, Ok(0));
    assert_eq!(store.len(), 2);
    let row = store.find_by_email(&email("ann@example.com")).unwrap();
    assert_eq!(row.id(), 0);
    assert_eq!(row.name().as_ref(), "Ann B.");
    assert_eq!(row.subscribed_at(), 1);
    assert_eq!(row.token().as_ref(), "t3");
    assert_eq!(row.status(), SubscriptionStatus::PendingConfirmation);
    // the old token is gone
    assert!(store.find_by_token(&token("t1")).is_none());
    // the other subscriber is as before
    let other = store.find_by_email(&email("bob@example.com")).unwrap();
    assert_eq!(other.id(), 1);
    assert_eq!(other.token().as_ref(), "t2");
}

#[test]
fn a_token_of_another_subscriber_is_refused() {
    let mut store = SubscriptionStore::new();
    store.upsert_pending(subscriber("Ann", "ann@example.com"), token("t1"), 1).unwrap();

    let refused = store.upsert_pending(subscriber("Bob", "bob@example.com"), token("t1"), 2);

    assert_eq!(refused, Err(StoreError::TokenTaken));
    assert_eq!(store.len(), 1);
    assert!(store.find_by_email(&email("bob@example.com")).is_none());
    assert_eq!(store.find_by_token(&token("t1")).unwrap().email().as_ref(), "ann@example.com");
}

#[test]
fn a_refused_update_changes_nothing() {
    let mut store = SubscriptionStore::new();
    store.upsert_pending(subscriber("Ann", "ann@example.com"), token("t1"), 1).unwrap();
    store.upsert_pending(subscriber("Bob", "bob@example.com"), token("t2"), 2).unwrap();

    let refused = store.upsert_pending(subscriber("Robert", "bob@example.com"), token("t1"), 3);

    assert_eq!(refused, Err(StoreError::TokenTaken));
    let row = store.find_by_email(&email("bob@example.com")).unwrap();
    assert_eq!(row.name().as_ref(), "Bob");
    assert_eq!(row.token().as_ref(), "t2");
}

#[test]
fn a_subscriber_may_get_the_same_token_again() {
    let mut store = SubscriptionStore::new();
    store.upsert_pending(subscriber("Ann", "ann@example.com"), token("t1"), 1).unwrap();
    assert_eq!(store.upsert_pending(subscriber("Ann", "ann@example.com"), token("t1"), 2), Ok(0));
    assert_eq!(store.len(), 1);
}

#[test]
fn a_token_confirms_its_owner() {
    let mut store = SubscriptionStore::new();
    store.upsert_pending(subscriber("Ann", "ann@example.com"), token("t1"), 1).unwrap();
    store.upsert_pending(subscriber("Bob", "bob@example.com"), token("t2"), 2).unwrap();

    assert_eq!(store.confirm(&token("t2")), Some(1));

    assert_eq!(
        store.find_by_email(&email("bob@example.com")).unwrap().status(),
        SubscriptionStatus::Confirmed
    );
    assert_eq!(
        store.find_by_email(&email("ann@example.com")).unwrap().status(),
        SubscriptionStatus::PendingConfirmation
    );
    assert_eq!(store.len(), 2);
}

#[test]
fn an_unknown_token_confirms_nobody() {
    let mut store = SubscriptionStore::new();
    store.upsert_pending(subscriber("Ann", "ann@example.com"), token("t1"), 1).unwrap();

    assert_eq!(store.confirm(&token("t9")), None);

    assert_eq!(
        store.find_by_email(&email("ann@example.com")).unwrap().status(),
        SubscriptionStatus::PendingConfirmation
    );
}

#[test]
fn a_token_that_was_used_confirms_again_without_harm() {
    let mut store = SubscriptionStore::new();
    store.upsert_pending(subscriber("Ann", "ann@example.com"), token("t1"), 1).unwrap();
    assert_eq!(store.confirm(&token("t1")), Some(0));
    assert_eq!(store.confirm(&token("t1")), Some(0));
    let row = store.find_by_email(&email("ann@example.com")).unwrap();
    assert_eq!(row.status(), SubscriptionStatus::Confirmed);
    assert_eq!(row.name().as_ref(), "Ann");
    assert_eq!(row.subscribed_at(), 1);
}

#[test]
fn a_superseded_token_confirms_nobody() {
    let mut store = SubscriptionStore::new();
    store.upsert_pending(subscriber("Ann", "ann@example.com"), token("t1"), 1).unwrap();
    store.upsert_pending(subscriber("Ann", "ann@example.com"), token("t2"), 2).unwrap();
    assert_eq!(store.confirm(&token("t1")), None);
    assert_eq!(store.confirm(&token("t2")), Some(0));
}

#[test]
fn a_write_does_not_undo_a_confirmation() {
    let mut store = SubscriptionStore::new();
    store.upsert_pending(subscriber("Ann", "ann@example.com"), token("t1"), 1).unwrap();
    store.confirm(&token("t1"));
    store.upsert_pending(subscriber("Ann", "ann@example.com"), token("t2"), 2).unwrap();
    assert_eq!(
        store.find_by_email(&email("ann@example.com")).unwrap().status(),
        SubscriptionStatus::Confirmed
    );
}

#[test]
fn the_status_is_written_in_snake_case() {
    assert_eq!(SubscriptionStatus::PendingConfirmation.as_str(), "pending_confirmation");
    assert_eq!(SubscriptionStatus::Confirmed.as_str(), "confirmed");
}
