use vstd::prelude::*;

use crate::domain::new_subscriber::NewSubscriber;

verus! {

/// Failure of a repository operation.
#[derive(Clone, Copy, Debug, PartialEq, Eq, Structural)]
pub enum RepositoryError {
    /// The token to insert already exists; the primary key on tokens is the
    /// authoritative collision guard.
    Conflict,
    /// The backing store could not be reached. The in-memory store never
    /// raises it; a remote driver may.
    Unavailable,
}

/// Lifecycle state of a subscriber's opt-in.
#[derive(Clone, Copy, Debug, PartialEq, Eq, Structural)]
pub enum SubscriptionStatus {
    Pending,
    Confirmed,
}

/// Identifier a subscriber row is keyed by, generated at insert time.
#[derive(Clone, Copy, Debug, PartialEq, Eq, Structural, Hash)]
pub struct SubscriberId(pub u128);

/// A persisted subscriber row.
#[derive(Debug)]
pub struct SubscriberRecord {
    pub id: SubscriberId,
    pub name: String,
    pub email: String,
    pub subscribed_at_millis: i64,
    pub status: SubscriptionStatus,
}

/// A persisted confirmation-token row, linking a token to its subscriber.
#[derive(Debug)]
pub struct TokenRecord {
    pub token: String,
    pub subscriber_id: SubscriberId,
}

/// Mathematical image of a subscriber row.
#[verifier::ext_equal]
pub struct SubscriberRow {
    pub id: SubscriberId,
    pub name: Seq<char>,
    pub email: Seq<char>,
    pub subscribed_at_millis: i64,
    pub status: SubscriptionStatus,
}

/// Mathematical image of a token row.
#[verifier::ext_equal]
pub struct TokenRow {
    pub token: Seq<char>,
    pub subscriber_id: SubscriberId,
}

impl View for SubscriberRecord {
    type V = SubscriberRow;

    open spec fn view(&self) -> SubscriberRow {
        SubscriberRow {
            id: self.id,
            name: self.name@,
            email: self.email@,
            subscribed_at_millis: self.subscribed_at_millis,
            status: self.status,
        }
    }
}

impl View for TokenRecord {
    type V = TokenRow;

    open spec fn view(&self) -> TokenRow {
        TokenRow { token: self.token@, subscriber_id: self.subscriber_id }
    }
}

/// Mathematical image of the whole store: the two tables.
#[verifier::ext_equal]
pub struct StoreView {
    pub subscribers: Seq<SubscriberRow>,
    pub tokens: Seq<TokenRow>,
}

/// How one subscriber row reacts to `mark_confirmed(id)`: rows keyed by `id`
/// become confirmed, all others are untouched.
pub open spec fn confirm_row(r: SubscriberRow, id: SubscriberId) -> SubscriberRow {
    if r.id == id {
        SubscriberRow { status: SubscriptionStatus::Confirmed, ..r }
    } else {
        r
    }
}

impl StoreView {
    /// The store with no rows.
    pub open spec fn empty() -> StoreView {
        StoreView { subscribers: Seq::empty(), tokens: Seq::empty() }
    }

    /// Well-formedness: the transactional invariant the store maintains.
    /// Subscriber and token rows are created together, so they pair up one
    /// to one, position by position; and tokens never repeat, which the
    /// token primary key enforces.
    pub open spec fn wf(self) -> bool {
        &&& self.tokens.len() == self.subscribers.len()
        &&& forall|i: int|
            0 <= i < self.tokens.len() ==> (#[trigger] self.tokens[i]).subscriber_id
                == self.subscribers[i].id
        &&& forall|i: int, j: int|
            0 <= i < self.tokens.len() && 0 <= j < self.tokens.len() && i != j ==> (
            #[trigger] self.tokens[i]).token != (#[trigger] self.tokens[j]).token
    }

    /// Some token row holds exactly this token.
    pub open spec fn has_token(self, t: Seq<char>) -> bool {
        exists|i: int| 0 <= i < self.tokens.len() && (#[trigger] self.tokens[i]).token == t
    }

    /// Position of the token row holding this token; meaningful when
    /// `has_token` holds, and unique in a well-formed store.
    pub open spec fn token_index(self, t: Seq<char>) -> int {
        choose|i: int| 0 <= i < self.tokens.len() && (#[trigger] self.tokens[i]).token == t
    }

    /// The subscriber the token was issued for.
    pub open spec fn token_owner(self, t: Seq<char>) -> SubscriberId {
        self.tokens[self.token_index(t)].subscriber_id
    }

    /// The store after one enrollment: one pending subscriber row and its
    /// token row, appended together.
    pub open spec fn with_enrollment(
        self,
        id: SubscriberId,
        name: Seq<char>,
        email: Seq<char>,
        subscribed_at_millis: i64,
        token: Seq<char>,
    ) -> StoreView {
        StoreView {
            subscribers: self.subscribers.push(
                SubscriberRow {
                    id,
                    name,
                    email,
                    subscribed_at_millis,
                    status: SubscriptionStatus::Pending,
                },
            ),
            tokens: self.tokens.push(TokenRow { token, subscriber_id: id }),
        }
    }

    /// One enrollment for `id`, `name`, `email` and `token` was written on
    /// top of `self`, at some instant the clock reported.
    pub open spec fn enrollment_written(
        self,
        post: StoreView,
        id: SubscriberId,
        name: Seq<char>,
        email: Seq<char>,
        token: Seq<char>,
    ) -> bool {
        exists|at: i64| post == self.with_enrollment(id, name, email, at, token)
    }

    /// The store after `mark_confirmed(id)`: statuses of the rows keyed by
    /// `id` flip to confirmed, everything else stays.
    pub open spec fn with_confirmed(self, id: SubscriberId) -> StoreView {
        StoreView {
            subscribers: self.subscribers.map_values(|r: SubscriberRow| confirm_row(r, id)),
            tokens: self.tokens,
        }
    }
}

/// Relies on uuid's `Uuid::new_v4`: a freshly drawn random identifier,
/// carried over as its 128-bit value. The value depends on randomness, so
/// nothing is promised of it.
#[verifier::external_body]
fn fresh_subscriber_id() -> (id: u128) {
    uuid::Uuid::new_v4().as_u128()
}

/// Relies on chrono's `Utc::now`: the current wall-clock instant, reported
/// as milliseconds since the Unix epoch. The value depends on the clock, so
/// nothing is promised of it.
#[verifier::external_body]
fn now_millis() -> (t: i64) {
    chrono::Utc::now().timestamp_millis()
}

/// The subscriber repository: the `subscriptions` and `subscription_tokens`
/// tables of the transactional store, with the operations the services rely
/// on. Each `&mut` operation is one transaction: it moves the store from one
/// well-formed state to the next with nothing observable in between.
pub struct Store {
    subscribers: Vec<SubscriberRecord>,
    tokens: Vec<TokenRecord>,
}

impl View for Store {
    type V = StoreView;

    closed spec fn view(&self) -> StoreView {
        StoreView {
            subscribers: self.subscribers@.map_values(|r: SubscriberRecord| r@),
            tokens: self.tokens@.map_values(|r: TokenRecord| r@),
        }
    }
}

impl Store {
    /// Fresh, empty store.
    pub fn new() -> (s: Store)
        ensures
            s@ == StoreView::empty(),
            s@.wf(),
    {
        let s = Store { subscribers: Vec::new(), tokens: Vec::new() };
        proof {
            assert(s@ =~= StoreView::empty());
        }
        s
    }

    /// Position of the row holding `token`, if any.
    fn find_token_index(&self, token: &str) -> (r: Option<usize>)
        ensures
            match r {
                Some(i) => i < self@.tokens.len() && self@.tokens[i as int].token == token@,
                None => !self@.has_token(token@),
            },
    {
        let owned = token.to_owned();
        let n = self.tokens.len();
        for i in 0..n
            invariant
                n == self@.tokens.len(),
                owned@ == token@,
                forall|j: int| 0 <= j < i ==> (#[trigger] self@.tokens[j]).token != token@,
        {
            if self.tokens[i].token == owned {
                return Some(i);
            }
        }
        None
    }

    /// The atomic enrollment write: inserts one pending subscriber row with a
    /// fresh identifier and the current time, and the token row linking
    /// `token` to it — both or, on a token conflict, neither.
    pub fn insert_pending_subscriber_and_token(
        &mut self,
        new_subscriber: &NewSubscriber,
        token: String,
    ) -> (r: Result<SubscriberId, RepositoryError>)
        requires
            old(self)@.wf(),
        ensures
            final(self)@.wf(),
            r is Err <==> old(self)@.has_token(token@),
            match r {
                Ok(id) => {
                    &&& old(self)@.enrollment_written(
                        final(self)@,
                        id,
                        new_subscriber.name@,
                        new_subscriber.email@,
                        token@,
                    )
                    &&& final(self)@.has_token(token@)
                    &&& final(self)@.token_owner(token@) == id
                },
                Err(e) => final(self)@ == old(self)@ && e == RepositoryError::Conflict,
            },
    {
        if self.find_token_index(token.as_str()).is_some() {
            return Err(RepositoryError::Conflict);
        }
        let id = SubscriberId(fresh_subscriber_id());
        let at = now_millis();
        self.subscribers.push(
            SubscriberRecord {
                id,
                name: new_subscriber.name.as_ref().to_owned(),
                email: new_subscriber.email.as_ref().to_owned(),
                subscribed_at_millis: at,
                status: SubscriptionStatus::Pending,
            },
        );
        self.tokens.push(TokenRecord { token, subscriber_id: id });
        proof {
            let prior = old(self)@;
            let now = self@;
            assert(now == prior.with_enrollment(
                id,
                new_subscriber.name@,
                new_subscriber.email@,
                at,
                token@,
            )) by {
                assert(now.subscribers =~= prior.with_enrollment(
                    id,
                    new_subscriber.name@,
                    new_subscriber.email@,
                    at,
                    token@,
                ).subscribers);
                assert(now.tokens =~= prior.with_enrollment(
                    id,
                    new_subscriber.name@,
                    new_subscriber.email@,
                    at,
                    token@,
                ).tokens);
                assert(now =~= prior.with_enrollment(
                    id,
                    new_subscriber.name@,
                    new_subscriber.email@,
                    at,
                    token@,
                ));
            }
            lemma_enrollment_preserves_wf(
                prior,
                id,
                new_subscriber.name@,
                new_subscriber.email@,
                at,
                token@,
            );
            lemma_enrollment_token_resolves(
                prior,
                id,
                new_subscriber.name@,
                new_subscriber.email@,
                at,
                token@,
            );
            assert(prior.enrollment_written(
                self@,
                id,
                new_subscriber.name@,
                new_subscriber.email@,
                token@,
            )) by {
                assert(exists|x: i64|
                    self@ == prior.with_enrollment(
                        id,
                        new_subscriber.name@,
                        new_subscriber.email@,
                        x,
                        token@,
                    ));
            }
        }
        Ok(id)
    }

    /// Token lookup: the subscriber the token was issued for, `None` for a
    /// token nobody was issued. The in-memory store is always available, so
    /// the error branch is never taken.
    pub fn resolve_token(&self, token: &str) -> (r: Result<Option<SubscriberId>, RepositoryError>)
        requires
            self@.wf(),
        ensures
            match r {
                Ok(Some(id)) => self@.has_token(token@) && id == self@.token_owner(token@),
                Ok(None) => !self@.has_token(token@),
                Err(_) => false,
            },
    {
        match self.find_token_index(token) {
            Some(i) => {
                let id = self.tokens[i].subscriber_id;
                proof {
                    let k = self@.token_index(token@);
                    assert(self@.tokens[k].token == token@);
                    assert(k == i as int);
                }
                Ok(Some(id))
            },
            None => Ok(None),
        }
    }

    /// Idempotent status transition: every subscriber row keyed by `id`
    /// becomes confirmed; rows already confirmed stay so, and nothing else
    /// changes.
    pub fn mark_confirmed(&mut self, id: SubscriberId) -> (r: Result<(), RepositoryError>)
        requires
            old(self)@.wf(),
        ensures
            final(self)@.wf(),
            r is Ok,
            final(self)@ == old(self)@.with_confirmed(id),
    {
        let n = self.subscribers.len();
        let mut updated: Vec<SubscriberRecord> = Vec::with_capacity(n);
        for i in 0..n
            invariant
                n == self@.subscribers.len(),
                n == self.subscribers@.len(),
                updated@.len() == i,
                forall|j: int|
                    0 <= j < i ==> (#[trigger] updated@[j])@ == confirm_row(
                        self@.subscribers[j],
                        id,
                    ),
        {
            let rec = &self.subscribers[i];
            let status = if rec.id == id {
                SubscriptionStatus::Confirmed
            } else {
                rec.status
            };
            updated.push(
                SubscriberRecord {
                    id: rec.id,
                    name: rec.name.clone(),
                    email: rec.email.clone(),
                    subscribed_at_millis: rec.subscribed_at_millis,
                    status,
                },
            );
        }
        self.subscribers = updated;
        proof {
            assert(self@.subscribers =~= old(self)@.with_confirmed(id).subscribers);
            assert(self@ =~= old(self)@.with_confirmed(id));
            lemma_confirm_preserves_wf(old(self)@, id);
        }
        Ok(())
    }

    /// Number of subscriber rows.
    pub fn subscriber_count(&self) -> (n: usize)
        ensures
            n == self@.subscribers.len(),
    {
        self.subscribers.len()
    }

    /// Number of token rows.
    pub fn token_count(&self) -> (n: usize)
        ensures
            n == self@.tokens.len(),
    {
        self.tokens.len()
    }

    /// Read-only access to one subscriber row.
    pub fn subscriber_at(&self, i: usize) -> (r: &SubscriberRecord)
        requires
            i < self@.subscribers.len(),
        ensures
            r@ == self@.subscribers[i as int],
    {
        &self.subscribers[i]
    }

    /// Read-only access to one token row.
    pub fn token_at(&self, i: usize) -> (r: &TokenRecord)
        requires
            i < self@.tokens.len(),
        ensures
            r@ == self@.tokens[i as int],
    {
        &self.tokens[i]
    }
}

/// Law: after an enrollment whose token was not yet present, that token
/// resolves, and to the subscriber it was issued for.
pub proof fn lemma_enrollment_token_resolves(
    sv: StoreView,
    id: SubscriberId,
    name: Seq<char>,
    email: Seq<char>,
    subscribed_at_millis: i64,
    token: Seq<char>,
)
    requires
        sv.wf(),
        !sv.has_token(token),
    ensures
        sv.with_enrollment(id, name, email, subscribed_at_millis, token).has_token(token),
        sv.with_enrollment(id, name, email, subscribed_at_millis, token).token_owner(token) == id,
{
    let after = sv.with_enrollment(id, name, email, subscribed_at_millis, token);
    assert(after.tokens[sv.tokens.len() as int].token == token);
    let i = after.token_index(token);
    assert(0 <= i < after.tokens.len() && after.tokens[i].token == token);
    if i < sv.tokens.len() {
        assert(sv.tokens[i] == after.tokens[i]);
        assert(sv.has_token(token));
    }
    assert(i == sv.tokens.len());
}

/// Law: an enrollment whose token is not yet present keeps the store well
/// formed — tokens stay unique and each subscriber row keeps its token row.
pub proof fn lemma_enrollment_preserves_wf(
    sv: StoreView,
    id: SubscriberId,
    name: Seq<char>,
    email: Seq<char>,
    subscribed_at_millis: i64,
    token: Seq<char>,
)
    requires
        sv.wf(),
        !sv.has_token(token),
    ensures
        sv.with_enrollment(id, name, email, subscribed_at_millis, token).wf(),
        sv.with_enrollment(id, name, email, subscribed_at_millis, token).has_token(token),
{
    let after = sv.with_enrollment(id, name, email, subscribed_at_millis, token);
    assert forall|i: int, j: int|
        0 <= i < after.tokens.len() && 0 <= j < after.tokens.len() && i != j implies (
    #[trigger] after.tokens[i]).token != (#[trigger] after.tokens[j]).token by {
        if i < sv.tokens.len() && j < sv.tokens.len() {
            assert(sv.tokens[i] == after.tokens[i]);
            assert(sv.tokens[j] == after.tokens[j]);
        } else if j == sv.tokens.len() {
            assert(after.tokens[j].token == token);
            assert(sv.tokens[i] == after.tokens[i]);
            assert(sv.tokens[i].token != token);
        } else {
            assert(after.tokens[i].token == token);
            assert(sv.tokens[j] == after.tokens[j]);
            assert(sv.tokens[j].token != token);
        }
    }
    assert(after.tokens[sv.tokens.len() as int].token == token);
}

/// Law: an enrollment writes exactly one subscriber row — pending, with the
/// given name and email — and exactly one token row linked to it, and leaves
/// every row that was already there untouched: no partial state exists.
pub proof fn lemma_enrollment_adds_one_pending_row(
    sv: StoreView,
    id: SubscriberId,
    name: Seq<char>,
    email: Seq<char>,
    subscribed_at_millis: i64,
    token: Seq<char>,
)
    ensures
        ({
            let after = sv.with_enrollment(id, name, email, subscribed_at_millis, token);
            &&& after.subscribers.len() == sv.subscribers.len() + 1
            &&& after.tokens.len() == sv.tokens.len() + 1
            &&& after.subscribers.last() == (SubscriberRow {
                id,
                name,
                email,
                subscribed_at_millis,
                status: SubscriptionStatus::Pending,
            })
            &&& after.tokens.last() == (TokenRow { token, subscriber_id: id })
            &&& forall|k: int|
                0 <= k < sv.subscribers.len() ==> #[trigger] after.subscribers[k]
                    == sv.subscribers[k]
            &&& forall|k: int|
                0 <= k < sv.tokens.len() ==> #[trigger] after.tokens[k] == sv.tokens[k]
        }),
{
}

/// Law: a confirmation only flips statuses. It writes and removes no row,
/// touches no token, and changes no field but the status of the rows keyed
/// by the confirmed identifier; rows keyed otherwise are left exactly as
/// they were.
pub proof fn lemma_confirm_touches_only_status(sv: StoreView, id: SubscriberId)
    ensures
        sv.with_confirmed(id).tokens == sv.tokens,
        sv.with_confirmed(id).subscribers.len() == sv.subscribers.len(),
        forall|k: int|
            0 <= k < sv.subscribers.len() && sv.subscribers[k].id != id
                ==> #[trigger] sv.with_confirmed(id).subscribers[k] == sv.subscribers[k],
        forall|k: int|
            0 <= k < sv.subscribers.len() && sv.subscribers[k].id == id ==> #[trigger] sv
                .with_confirmed(id).subscribers[k] == (SubscriberRow {
                status: SubscriptionStatus::Confirmed,
                ..sv.subscribers[k]
            }),
{
}

/// Law: confirming a subscriber keeps the store well formed: it touches no
/// identifier and no token row.
pub proof fn lemma_confirm_preserves_wf(sv: StoreView, id: SubscriberId)
    requires
        sv.wf(),
    ensures
        sv.with_confirmed(id).wf(),
{
}

/// Law: confirmation is idempotent — confirming a subscriber a second time
/// changes nothing.
pub proof fn lemma_confirm_idempotent(sv: StoreView, id: SubscriberId)
    ensures
        sv.with_confirmed(id).with_confirmed(id) == sv.with_confirmed(id),
{
    assert(sv.with_confirmed(id).with_confirmed(id).subscribers =~= sv.with_confirmed(
        id,
    ).subscribers);
    assert(sv.with_confirmed(id).with_confirmed(id) =~= sv.with_confirmed(id));
}

/// Law: two enrollments in a row — as two concurrent ones serialize at the
/// transactional store — can only both succeed with distinct tokens, and
/// leave the store well formed: no token collision, and no subscriber row
/// without its token row.
pub proof fn lemma_two_enrollments_no_collision(
    sv: StoreView,
    id1: SubscriberId,
    name1: Seq<char>,
    email1: Seq<char>,
    at1: i64,
    token1: Seq<char>,
    id2: SubscriberId,
    name2: Seq<char>,
    email2: Seq<char>,
    at2: i64,
    token2: Seq<char>,
)
    requires
        sv.wf(),
        !sv.has_token(token1),
        !sv.with_enrollment(id1, name1, email1, at1, token1).has_token(token2),
    ensures
        token1 != token2,
        sv.with_enrollment(id1, name1, email1, at1, token1).with_enrollment(
            id2,
            name2,
            email2,
            at2,
            token2,
        ).wf(),
{
    let mid = sv.with_enrollment(id1, name1, email1, at1, token1);
    lemma_enrollment_preserves_wf(sv, id1, name1, email1, at1, token1);
    lemma_enrollment_preserves_wf(mid, id2, name2, email2, at2, token2);
}

} // verus!
