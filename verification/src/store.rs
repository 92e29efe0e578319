//! The subscribers and their tokens, kept in memory.
//!
//! The store holds one row for each email address. A row carries the
//! subscriber's one active confirmation token, so a token never outlives the
//! subscriber it belongs to, and a subscriber is never without one.

use crate::domain::{ConfirmationToken, SubscriberEmail, SubscriberName};
use crate::onboarding::{NewSubscriber, NewSubscriberView};
use vstd::prelude::*;

verus! {

/// Whether a subscriber has confirmed the address.
#[derive(Clone, Copy, Debug, PartialEq, Eq, Structural)]
pub enum SubscriptionStatus {
    PendingConfirmation,
    Confirmed,
}

impl SubscriptionStatus {
    /// The status as the store writes it.
    pub fn as_str(&self) -> (text: &'static str)
        ensures
            text@ == match *self {
                SubscriptionStatus::PendingConfirmation => "pending_confirmation"@,
                SubscriptionStatus::Confirmed => "confirmed"@,
            },
    {
        match self {
            SubscriptionStatus::PendingConfirmation => "pending_confirmation",
            SubscriptionStatus::Confirmed => "confirmed",
        }
    }
}

/// Why the store did not take a write.
#[derive(Clone, Copy, Debug, PartialEq, Eq, Structural)]
pub enum StoreError {
    /// The token already belongs to another subscriber.
    TokenTaken,
}

/// One row of the store.
#[derive(Debug)]
pub struct Subscriber {
    id: u64,
    email: SubscriberEmail,
    name: SubscriberName,
    status: SubscriptionStatus,
    subscribed_at: u64,
    token: ConfirmationToken,
}

/// What a [`Subscriber`] says.
pub struct SubscriberView {
    pub id: u64,
    pub email: Seq<char>,
    pub name: Seq<char>,
    pub status: SubscriptionStatus,
    pub subscribed_at: u64,
    pub token: Seq<char>,
}

impl View for Subscriber {
    type V = SubscriberView;

    closed spec fn view(&self) -> SubscriberView {
        SubscriberView {
            id: self.id,
            email: self.email@,
            name: self.name@,
            status: self.status,
            subscribed_at: self.subscribed_at,
            token: self.token@,
        }
    }
}

impl Subscriber {
    /// The identifier that the store gave the subscriber.
    pub fn id(&self) -> (id: u64)
        ensures
            id == self@.id,
    {
        self.id
    }

    /// The subscriber's address.
    pub fn email(&self) -> (email: &SubscriberEmail)
        ensures
            email@ == self@.email,
    {
        &self.email
    }

    /// The subscriber's name.
    pub fn name(&self) -> (name: &SubscriberName)
        ensures
            name@ == self@.name,
    {
        &self.name
    }

    /// Whether the subscriber has confirmed.
    pub fn status(&self) -> (status: SubscriptionStatus)
        ensures
            status == self@.status,
    {
        self.status
    }

    /// When the subscriber was first stored.
    pub fn subscribed_at(&self) -> (at: u64)
        ensures
            at == self@.subscribed_at,
    {
        self.subscribed_at
    }

    /// The subscriber's active token.
    pub fn token(&self) -> (token: &ConfirmationToken)
        ensures
            token@ == self@.token,
    {
        &self.token
    }
}

/// The rules of the store: a row's identifier is its position, and no two rows
/// share an email or a token.
pub open spec fn well_formed(rows: Seq<SubscriberView>) -> bool {
    &&& forall|i: int| 0 <= i < rows.len() ==> (#[trigger] rows[i]).id == i
    &&& forall|i: int, j: int|
        0 <= i < j < rows.len() ==> (#[trigger] rows[i]).email != (#[trigger] rows[j]).email
    &&& forall|i: int, j: int|
        0 <= i < j < rows.len() ==> (#[trigger] rows[i]).token != (#[trigger] rows[j]).token
}

/// Whether a row has this email.
pub open spec fn holds_email(rows: Seq<SubscriberView>, email: Seq<char>) -> bool {
    exists|i: int| 0 <= i < rows.len() && (#[trigger] rows[i]).email == email
}

/// The position of the row with this email, where there is one.
pub open spec fn row_of_email(rows: Seq<SubscriberView>, email: Seq<char>) -> int {
    choose|i: int| 0 <= i < rows.len() && (#[trigger] rows[i]).email == email
}

/// Whether a row has this token.
pub open spec fn holds_token(rows: Seq<SubscriberView>, token: Seq<char>) -> bool {
    exists|i: int| 0 <= i < rows.len() && (#[trigger] rows[i]).token == token
}

/// The position of the row with this token, where there is one.
pub open spec fn row_of_token(rows: Seq<SubscriberView>, token: Seq<char>) -> int {
    choose|i: int| 0 <= i < rows.len() && (#[trigger] rows[i]).token == token
}

/// Whether the token belongs to a subscriber with another email.
pub open spec fn token_taken(rows: Seq<SubscriberView>, email: Seq<char>, token: Seq<char>) -> bool {
    exists|i: int|
        0 <= i < rows.len() && (#[trigger] rows[i]).token == token && rows[i].email != email
}

/// The rows after a subscriber was written with a fresh token.
///
/// A token of another subscriber is refused, and nothing changes. A known
/// email keeps its row, its identifier, its status and its first timestamp,
/// and takes the new name and the new token, which replaces the old one. An
/// unknown email gets a new row, pending.
pub open spec fn upserted(
    rows: Seq<SubscriberView>,
    subscriber: NewSubscriberView,
    token: Seq<char>,
    now: u64,
) -> Result<Seq<SubscriberView>, StoreError> {
    if token_taken(rows, subscriber.email, token) {
        Err(StoreError::TokenTaken)
    } else if holds_email(rows, subscriber.email) {
        let at = row_of_email(rows, subscriber.email);
        Ok(rows.update(at, SubscriberView { name: subscriber.name, token, ..rows[at] }))
    } else {
        Ok(
            rows.push(
                SubscriberView {
                    id: rows.len() as u64,
                    email: subscriber.email,
                    name: subscriber.name,
                    status: SubscriptionStatus::PendingConfirmation,
                    subscribed_at: now,
                    token,
                },
            ),
        )
    }
}

/// The rows after a token was handed back: its owner is confirmed, and an
/// unknown token changes nothing.
pub open spec fn confirmed(rows: Seq<SubscriberView>, token: Seq<char>) -> Seq<SubscriberView> {
    if holds_token(rows, token) {
        let at = row_of_token(rows, token);
        rows.update(at, SubscriberView { status: SubscriptionStatus::Confirmed, ..rows[at] })
    } else {
        rows
    }
}

/// In a well-formed store, the row with an email is the only one.
pub proof fn lemma_row_of_email(rows: Seq<SubscriberView>, at: int)
    requires
        well_formed(rows),
        0 <= at < rows.len(),
    ensures
        holds_email(rows, rows[at].email),
        row_of_email(rows, rows[at].email) == at,
{
    let found = row_of_email(rows, rows[at].email);
    assert(0 <= found < rows.len() && rows[found].email == rows[at].email);
    if found < at {
        assert(rows[found].email != rows[at].email);
    } else if at < found {
        assert(rows[at].email != rows[found].email);
    }
}

/// In a well-formed store, the row with a token is the only one.
pub proof fn lemma_row_of_token(rows: Seq<SubscriberView>, at: int)
    requires
        well_formed(rows),
        0 <= at < rows.len(),
    ensures
        holds_token(rows, rows[at].token),
        row_of_token(rows, rows[at].token) == at,
{
    let found = row_of_token(rows, rows[at].token);
    assert(0 <= found < rows.len() && rows[found].token == rows[at].token);
    if found < at {
        assert(rows[found].token != rows[at].token);
    } else if at < found {
        assert(rows[at].token != rows[found].token);
    }
}

/// What a write that the store takes does to the rows.
///
/// The store stays well formed, and every other subscriber keeps its row as it
/// was. A known email keeps its one row, with its identifier, its status and
/// its first timestamp: no second row is made, and a confirmed subscriber
/// stays confirmed. An unknown email gets one new row, pending. Either way the
/// row carries the new name and the new token.
pub proof fn lemma_upserted(
    rows: Seq<SubscriberView>,
    subscriber: NewSubscriberView,
    token: Seq<char>,
    now: u64,
)
    requires
        well_formed(rows),
        rows.len() <= u64::MAX,
        upserted(rows, subscriber, token, now) is Ok,
    ensures
        ({
            let after = upserted(rows, subscriber, token, now)->Ok_0;
            let at = row_of_email(after, subscriber.email);
            &&& well_formed(after)
            &&& holds_email(after, subscriber.email)
            &&& 0 <= at < after.len()
            &&& after[at].email == subscriber.email
            &&& after[at].name == subscriber.name
            &&& after[at].token == token
            &&& forall|i: int| 0 <= i < rows.len() && i != at ==> after[i] == rows[i]
            &&& holds_email(rows, subscriber.email) ==> {
                &&& after.len() == rows.len()
                &&& at == row_of_email(rows, subscriber.email)
                &&& after[at].id == rows[at].id
                &&& after[at].status == rows[at].status
                &&& after[at].subscribed_at == rows[at].subscribed_at
            }
            &&& !holds_email(rows, subscriber.email) ==> {
                &&& after.len() == rows.len() + 1
                &&& at == rows.len()
                &&& after[at].status == SubscriptionStatus::PendingConfirmation
                &&& after[at].subscribed_at == now
            }
        }),
{
    let after = upserted(rows, subscriber, token, now)->Ok_0;
    if holds_email(rows, subscriber.email) {
        let at = row_of_email(rows, subscriber.email);
        lemma_row_of_email(rows, at);
        assert forall|i: int, j: int| 0 <= i < j < after.len() implies (#[trigger] after[i]).token
            != (#[trigger] after[j]).token by {
            assert(rows[i].token != rows[j].token);
            if i == at {
                assert(!(rows[j].token == token && rows[j].email != subscriber.email));
                assert(rows[at].email != rows[j].email);
            } else if j == at {
                assert(!(rows[i].token == token && rows[i].email != subscriber.email));
                assert(rows[i].email != rows[at].email);
            }
        }
        assert forall|i: int, j: int| 0 <= i < j < after.len() implies (#[trigger] after[i]).email
            != (#[trigger] after[j]).email by {
            assert(rows[i].email != rows[j].email);
        }
        assert(well_formed(after));
        lemma_row_of_email(after, at);
    } else {
        let at = rows.len() as int;
        assert forall|i: int, j: int| 0 <= i < j < after.len() implies (#[trigger] after[i]).token
            != (#[trigger] after[j]).token by {
            if j < rows.len() {
                assert(rows[i].token != rows[j].token);
            } else {
                assert(after[i] == rows[i]);
                assert(!(rows[i].token == token && rows[i].email != subscriber.email));
            }
        }
        assert forall|i: int, j: int| 0 <= i < j < after.len() implies (#[trigger] after[i]).email
            != (#[trigger] after[j]).email by {
            if j < rows.len() {
                assert(rows[i].email != rows[j].email);
            } else {
                assert(after[i] == rows[i]);
            }
        }
        assert forall|i: int| 0 <= i < after.len() implies (#[trigger] after[i]).id == i by {
            if i < rows.len() {
                assert(after[i] == rows[i]);
            }
        }
        assert(well_formed(after));
        lemma_row_of_email(after, at);
    }
}

/// What a token that is handed back does to the rows: the store stays well
/// formed, the owner of the token is confirmed, and nothing else changes.
pub proof fn lemma_confirmed(rows: Seq<SubscriberView>, token: Seq<char>)
    requires
        well_formed(rows),
    ensures
        ({
            let after = confirmed(rows, token);
            &&& well_formed(after)
            &&& after.len() == rows.len()
            &&& forall|i: int|
                0 <= i < rows.len() ==> (#[trigger] after[i]) == (SubscriberView {
                    status: if rows[i].token == token {
                        SubscriptionStatus::Confirmed
                    } else {
                        rows[i].status
                    },
                    ..rows[i]
                })
        }),
{
    let after = confirmed(rows, token);
    if holds_token(rows, token) {
        let at = row_of_token(rows, token);
        lemma_row_of_token(rows, at);
        assert forall|i: int| 0 <= i < rows.len() implies (#[trigger] after[i]) == (SubscriberView {
            status: if rows[i].token == token {
                SubscriptionStatus::Confirmed
            } else {
                rows[i].status
            },
            ..rows[i]
        }) by {
            if i != at && rows[i].token == token {
                lemma_row_of_token(rows, i);
            }
        }
        assert forall|i: int, j: int| 0 <= i < j < after.len() implies (#[trigger] after[i]).token
            != (#[trigger] after[j]).token by {
            assert(rows[i].token != rows[j].token);
        }
        assert forall|i: int, j: int| 0 <= i < j < after.len() implies (#[trigger] after[i]).email
            != (#[trigger] after[j]).email by {
            assert(rows[i].email != rows[j].email);
        }
    }
}

/// The status of a subscriber only moves forward: neither a write nor a
/// confirmation takes a confirmed subscriber back to pending, and neither
/// removes a row or gives it another identifier or email.
pub proof fn lemma_status_only_moves_forward(
    rows: Seq<SubscriberView>,
    subscriber: NewSubscriberView,
    token: Seq<char>,
    now: u64,
    at: int,
)
    requires
        well_formed(rows),
        rows.len() <= u64::MAX,
        0 <= at < rows.len(),
    ensures
        ({
            let after = confirmed(rows, token);
            &&& after[at].id == rows[at].id
            &&& after[at].email == rows[at].email
            &&& rows[at].status == SubscriptionStatus::Confirmed ==> after[at].status
                == SubscriptionStatus::Confirmed
        }),
        upserted(rows, subscriber, token, now) matches Ok(after) ==> {
            &&& at < after.len()
            &&& after[at].id == rows[at].id
            &&& after[at].email == rows[at].email
            &&& after[at].status == rows[at].status
        },
{
    lemma_confirmed(rows, token);
    if upserted(rows, subscriber, token, now) is Ok {
        lemma_upserted(rows, subscriber, token, now);
    }
}

/// The subscribers, in memory.
#[derive(Debug)]
pub struct SubscriptionStore {
    rows: Vec<Subscriber>,
}

impl View for SubscriptionStore {
    type V = Seq<SubscriberView>;

    closed spec fn view(&self) -> Seq<SubscriberView> {
        Seq::new(self.rows@.len(), |i: int| self.rows@[i]@)
    }
}

impl SubscriptionStore {
    /// Every store keeps the rules of [`well_formed`].
    #[verifier::type_invariant]
    pub open spec fn wf(self) -> bool {
        well_formed(self@)
    }

    /// An empty store.
    pub fn new() -> (store: SubscriptionStore)
        ensures
            store@ == Seq::<SubscriberView>::empty(),
            well_formed(store@),
    {
        let store = SubscriptionStore { rows: Vec::new() };
        assert(store@ =~= Seq::<SubscriberView>::empty());
        store
    }

    /// The number of subscribers.
    pub fn len(&self) -> (n: usize)
        ensures
            n == self@.len(),
            well_formed(self@),
    {
        proof {
            use_type_invariant(self);
        }
        self.rows.len()
    }

    /// Where the row with this email stands, if there is one.
    fn position_of_email(&self, email: &SubscriberEmail) -> (found: Option<usize>)
        ensures
            well_formed(self@),
            match found {
                Some(at) => at < self@.len() && self@[at as int].email == email@ && holds_email(
                    self@,
                    email@,
                ) && row_of_email(self@, email@) == at,
                None => !holds_email(self@, email@),
            },
    {
        proof {
            use_type_invariant(self);
        }
        let n = self.rows.len();
        let mut i: usize = 0;
        while i < n
            invariant
                well_formed(self@),
                n == self@.len(),
                n == self.rows@.len(),
                i <= n,
                forall|j: int| 0 <= j < i ==> (#[trigger] self@[j]).email != email@,
            decreases n - i,
        {
            assert(self@[i as int] == self.rows@[i as int]@);
            if self.rows[i].email == *email {
                proof {
                    lemma_row_of_email(self@, i as int);
                }
                return Some(i);
            }
            i += 1;
        }
        None
    }

    /// Where the row with this token stands, if there is one.
    fn position_of_token(&self, token: &ConfirmationToken) -> (found: Option<usize>)
        ensures
            well_formed(self@),
            match found {
                Some(at) => at < self@.len() && self@[at as int].token == token@ && holds_token(
                    self@,
                    token@,
                ) && row_of_token(self@, token@) == at,
                None => !holds_token(self@, token@),
            },
    {
        proof {
            use_type_invariant(self);
        }
        let n = self.rows.len();
        let mut i: usize = 0;
        while i < n
            invariant
                well_formed(self@),
                n == self@.len(),
                n == self.rows@.len(),
                i <= n,
                forall|j: int| 0 <= j < i ==> (#[trigger] self@[j]).token != token@,
            decreases n - i,
        {
            assert(self@[i as int] == self.rows@[i as int]@);
            if self.rows[i].token == *token {
                proof {
                    lemma_row_of_token(self@, i as int);
                }
                return Some(i);
            }
            i += 1;
        }
        None
    }

    /// The subscriber with this email, if there is one.
    pub fn find_by_email(&self, email: &SubscriberEmail) -> (found: Option<&Subscriber>)
        ensures
            match found {
                Some(row) => holds_email(self@, email@) && row@ == self@[row_of_email(
                    self@,
                    email@,
                )],
                None => !holds_email(self@, email@),
            },
    {
        match self.position_of_email(email) {
            Some(at) => {
                assert(self@[at as int] == self.rows@[at as int]@);
                Some(&self.rows[at])
            },
            None => None,
        }
    }

    /// Writes a subscriber with a fresh token, as one unit: either the row and
    /// the token are both in the store afterwards, or nothing has changed.
    /// Returns the subscriber's identifier.
    pub fn upsert_pending(
        &mut self,
        subscriber: NewSubscriber,
        token: ConfirmationToken,
        now: u64,
    ) -> (result: Result<u64, StoreError>)
        ensures
            well_formed(final(self)@),
            match upserted(old(self)@, subscriber@, token@, now) {
                Ok(rows) => final(self)@ == rows && holds_email(rows, subscriber@.email) && result
                    == Ok::<u64, StoreError>(rows[row_of_email(rows, subscriber@.email)].id),
                Err(e) => final(self)@ == old(self)@ && result == Err::<u64, StoreError>(e),
            },
    {
        proof {
            use_type_invariant(&*self);
        }
        let ghost before = self@;
        let NewSubscriber { email, name } = subscriber;
        let holder = self.position_of_token(&token);
        let taken = match holder {
            Some(at) => {
                assert(self@[at as int] == self.rows@[at as int]@);
                !(self.rows[at].email == email)
            },
            None => false,
        };
        proof {
            if token_taken(before, email@, token@) {
                let i = choose|i: int|
                    0 <= i < before.len() && (#[trigger] before[i]).token == token@ && before[i].email
                        != email@;
                lemma_row_of_token(before, i);
            }
        }
        if taken {
            return Err(StoreError::TokenTaken);
        }
        match self.position_of_email(&email) {
            Some(at) => {
                assert(self@[at as int] == self.rows@[at as int]@);
                let row = &self.rows[at];
                let id = row.id;
                let renewed = Subscriber {
                    id,
                    email,
                    name,
                    status: row.status,
                    subscribed_at: row.subscribed_at,
                    token,
                };
                let mut rows: Vec<Subscriber> = Vec::new();
                core::mem::swap(&mut self.rows, &mut rows);
                rows.set(at, renewed);
                let ghost after = Seq::new(rows@.len(), |i: int| rows@[i]@);
                proof {
                    assert(after =~= before.update(
                        at as int,
                        SubscriberView { name: name@, token: token@, ..before[at as int] },
                    ));
                    assert forall|i: int, j: int| 0 <= i < j < after.len() implies (
                    #[trigger] after[i]).token != (#[trigger] after[j]).token by {
                        assert(before[i].token != before[j].token);
                        if i == at {
                            if before[j].token == token@ {
                                lemma_row_of_token(before, j);
                            }
                        } else if j == at {
                            if before[i].token == token@ {
                                lemma_row_of_token(before, i);
                            }
                        }
                    }
                    assert forall|i: int, j: int| 0 <= i < j < after.len() implies (
                    #[trigger] after[i]).email != (#[trigger] after[j]).email by {
                        assert(before[i].email != before[j].email);
                    }
                    assert(well_formed(after));
                    lemma_row_of_email(after, at as int);
                }
                self.rows = rows;
                assert(self@ =~= after);
                Ok(id)
            },
            None => {
                let n = self.rows.len();
                let id = n as u64;
                let mut rows: Vec<Subscriber> = Vec::new();
                core::mem::swap(&mut self.rows, &mut rows);
                rows.push(
                    Subscriber {
                        id,
                        email,
                        name,
                        status: SubscriptionStatus::PendingConfirmation,
                        subscribed_at: now,
                        token,
                    },
                );
                let ghost after = Seq::new(rows@.len(), |i: int| rows@[i]@);
                proof {
                    assert(after =~= before.push(
                        SubscriberView {
                            id: before.len() as u64,
                            email: email@,
                            name: name@,
                            status: SubscriptionStatus::PendingConfirmation,
                            subscribed_at: now,
                            token: token@,
                        },
                    ));
                    assert forall|i: int, j: int| 0 <= i < j < after.len() implies (
                    #[trigger] after[i]).token != (#[trigger] after[j]).token by {
                        if j < before.len() {
                            assert(before[i].token != before[j].token);
                        } else {
                            assert(after[i] == before[i]);
                        }
                    }
                    assert forall|i: int, j: int| 0 <= i < j < after.len() implies (
                    #[trigger] after[i]).email != (#[trigger] after[j]).email by {
                        if j < before.len() {
                            assert(before[i].email != before[j].email);
                        } else {
                            assert(after[i] == before[i]);
                        }
                    }
                    assert forall|i: int| 0 <= i < after.len() implies (#[trigger] after[i]).id
                        == i by {
                        if i < before.len() {
                            assert(after[i] == before[i]);
                        }
                    }
                    assert(well_formed(after));
                    lemma_row_of_email(after, n as int);
                }
                self.rows = rows;
                assert(self@ =~= after);
                Ok(id)
            },
        }
    }

    /// Takes a token back: its owner is confirmed from now on. An unknown
    /// token changes nothing. Returns the identifier of the subscriber that
    /// the token belongs to.
    pub fn confirm(&mut self, token: &ConfirmationToken) -> (owner: Option<u64>)
        ensures
            well_formed(final(self)@),
            final(self)@ == confirmed(old(self)@, token@),
            owner == if holds_token(old(self)@, token@) {
                Some(old(self)@[row_of_token(old(self)@, token@)].id)
            } else {
                None
            },
    {
        proof {
            use_type_invariant(&*self);
        }
        let ghost before = self@;
        match self.position_of_token(token) {
            None => None,
            Some(at) => {
                assert(self@[at as int] == self.rows@[at as int]@);
                let row = &self.rows[at];
                let id = row.id;
                let confirmed_row = Subscriber {
                    id,
                    email: row.email.clone(),
                    name: row.name.clone(),
                    status: SubscriptionStatus::Confirmed,
                    subscribed_at: row.subscribed_at,
                    token: row.token.clone(),
                };
                let mut rows: Vec<Subscriber> = Vec::new();
                core::mem::swap(&mut self.rows, &mut rows);
                rows.set(at, confirmed_row);
                let ghost after = Seq::new(rows@.len(), |i: int| rows@[i]@);
                proof {
                    assert(after =~= before.update(
                        at as int,
                        SubscriberView {
                            status: SubscriptionStatus::Confirmed,
                            ..before[at as int]
                        },
                    ));
                    assert forall|i: int, j: int| 0 <= i < j < after.len() implies (
                    #[trigger] after[i]).token != (#[trigger] after[j]).token by {
                        assert(before[i].token != before[j].token);
                    }
                    assert forall|i: int, j: int| 0 <= i < j < after.len() implies (
                    #[trigger] after[i]).email != (#[trigger] after[j]).email by {
                        assert(before[i].email != before[j].email);
                    }
                    assert(well_formed(after));
                }
                self.rows = rows;
                assert(self@ =~= after);
                Some(id)
            },
        }
    }

    /// The subscriber whose active token this is, if there is one.
    pub fn find_by_token(&self, token: &ConfirmationToken) -> (found: Option<&Subscriber>)
        ensures
            match found {
                Some(row) => holds_token(self@, token@) && row@ == self@[row_of_token(
                    self@,
                    token@,
                )],
                None => !holds_token(self@, token@),
            },
    {
        match self.position_of_token(token) {
            Some(at) => {
                assert(self@[at as int] == self.rows@[at as int]@);
                Some(&self.rows[at])
            },
            None => None,
        }
    }
}

} // verus!
