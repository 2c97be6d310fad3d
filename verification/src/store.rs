//! The subscription store.
//!
//! Two tables — subscriber rows and token rows — with the invariants the
//! schema enforces: subscriber ids are unique, token strings are unique,
//! and every token references an existing subscriber. Writes of a sign-up
//! go through a `Transaction` that buffers the new rows and applies both
//! at `commit`, or neither: no reader of the store can ever observe a
//! subscriber without its token or a token without its subscriber.

use vstd::prelude::*;
use vstd::string::StringExecFns;
use crate::domain::NewSubscriber;
use crate::token::token_wf;

verus! {

/// Lifecycle state of a subscription. It only ever moves forward, from
/// `PendingConfirmation` to `Confirmed`.
#[derive(Clone, Copy, PartialEq, Eq, Structural, Debug)]
pub enum SubscriberStatus {
    PendingConfirmation,
    Confirmed,
}

/// A failed store operation, such as a violated uniqueness constraint.
#[derive(Clone, Copy, PartialEq, Eq, Structural, Debug)]
pub enum StoreError {
    Database,
}

/// One row of the subscribers table.
pub struct SubscriberRecord {
    pub id: u128,
    pub email: String,
    pub name: String,
    pub subscribed_at: i64,
    pub status: SubscriberStatus,
}

/// One row of the subscription-tokens table.
pub struct TokenRecord {
    pub subscription_token: String,
    pub subscriber_id: u128,
}

/// Mathematical image of a subscriber row.
#[verifier::ext_equal]
pub ghost struct SubscriberModel {
    pub id: u128,
    pub email: Seq<char>,
    pub name: Seq<char>,
    pub subscribed_at: i64,
    pub status: SubscriberStatus,
}

/// Mathematical image of a token row.
#[verifier::ext_equal]
pub ghost struct TokenModel {
    pub token: Seq<char>,
    pub subscriber_id: u128,
}

/// Mathematical image of the whole store: both tables as sequences.
#[verifier::ext_equal]
pub ghost struct StoreModel {
    pub subscribers: Seq<SubscriberModel>,
    pub tokens: Seq<TokenModel>,
}

impl View for SubscriberRecord {
    type V = SubscriberModel;

    open spec fn view(&self) -> SubscriberModel {
        SubscriberModel {
            id: self.id,
            email: self.email@,
            name: self.name@,
            subscribed_at: self.subscribed_at,
            status: self.status,
        }
    }
}

impl View for TokenRecord {
    type V = TokenModel;

    open spec fn view(&self) -> TokenModel {
        TokenModel { token: self.subscription_token@, subscriber_id: self.subscriber_id }
    }
}

/// The in-memory subscription store.
pub struct SubscriptionStore {
    pub subscribers: Vec<SubscriberRecord>,
    pub tokens: Vec<TokenRecord>,
}

impl View for SubscriptionStore {
    type V = StoreModel;

    open spec fn view(&self) -> StoreModel {
        StoreModel {
            subscribers: self.subscribers@.map_values(|r: SubscriberRecord| r@),
            tokens: self.tokens@.map_values(|r: TokenRecord| r@),
        }
    }
}

/// The store holds a subscriber with this id.
pub open spec fn has_subscriber_id(s: StoreModel, id: u128) -> bool {
    exists|i: int| 0 <= i < s.subscribers.len() && (#[trigger] s.subscribers[i]).id == id
}

/// The store holds a token row with this token string.
pub open spec fn has_token(s: StoreModel, token: Seq<char>) -> bool {
    exists|i: int| 0 <= i < s.tokens.len() && (#[trigger] s.tokens[i]).token == token
}

/// The subscriber a token row resolves to. Meaningful only when
/// `has_token` holds; unique when token strings are unique.
pub open spec fn token_owner(s: StoreModel, token: Seq<char>) -> u128 {
    s.tokens[choose|i: int|
        0 <= i < s.tokens.len() && (#[trigger] s.tokens[i]).token == token].subscriber_id
}

/// No two subscriber rows share an id.
pub open spec fn subscriber_ids_unique(subs: Seq<SubscriberModel>) -> bool {
    forall|i: int, j: int|
        0 <= i < j < subs.len() ==> (#[trigger] subs[i]).id != (#[trigger] subs[j]).id
}

/// No two token rows share a token string.
pub open spec fn token_strings_unique(toks: Seq<TokenModel>) -> bool {
    forall|i: int, j: int|
        0 <= i < j < toks.len() ==> (#[trigger] toks[i]).token != (#[trigger] toks[j]).token
}

/// Every token row references a subscriber row that exists.
pub open spec fn tokens_reference_subscribers(s: StoreModel) -> bool {
    forall|i: int|
        0 <= i < s.tokens.len() ==> has_subscriber_id(s, (#[trigger] s.tokens[i]).subscriber_id)
}

/// Every stored token string is well formed.
pub open spec fn stored_tokens_wf(toks: Seq<TokenModel>) -> bool {
    forall|i: int| 0 <= i < toks.len() ==> token_wf((#[trigger] toks[i]).token)
}

/// Well-formedness of the store: the invariants the schema enforces.
pub open spec fn store_wf(s: StoreModel) -> bool {
    &&& subscriber_ids_unique(s.subscribers)
    &&& token_strings_unique(s.tokens)
    &&& tokens_reference_subscribers(s)
    &&& stored_tokens_wf(s.tokens)
}

/// The subscriber row a fresh sign-up inserts.
pub open spec fn pending_subscriber(
    id: u128,
    email: Seq<char>,
    name: Seq<char>,
    subscribed_at: i64,
) -> SubscriberModel {
    SubscriberModel {
        id,
        email,
        name,
        subscribed_at,
        status: SubscriberStatus::PendingConfirmation,
    }
}

/// An open transaction: the rows a sign-up will insert, buffered until
/// `commit` and invisible to every reader of the store.
pub struct Transaction {
    pub subscriber: Option<SubscriberRecord>,
    pub token: Option<TokenRecord>,
}

/// Mathematical image of a transaction.
#[verifier::ext_equal]
pub ghost struct TxnModel {
    pub subscriber: Option<SubscriberModel>,
    pub token: Option<TokenModel>,
}

impl View for Transaction {
    type V = TxnModel;

    open spec fn view(&self) -> TxnModel {
        TxnModel {
            subscriber: match self.subscriber {
                Some(r) => Some(r@),
                None => None,
            },
            token: match self.token {
                Some(r) => Some(r@),
                None => None,
            },
        }
    }
}

/// A transaction is coherent when its token row, if any, references its
/// own buffered subscriber and carries a well-formed token string.
pub open spec fn txn_wf(t: TxnModel) -> bool {
    t.token matches Some(tok) ==> {
        &&& t.subscriber matches Some(sub) && tok.subscriber_id == sub.id
        &&& token_wf(tok.token)
    }
}

/// The transaction's rows do not collide with rows already visible.
pub open spec fn txn_fresh(s: StoreModel, t: TxnModel) -> bool {
    &&& (t.subscriber matches Some(sub) ==> !has_subscriber_id(s, sub.id))
    &&& (t.token matches Some(tok) ==> !has_token(s, tok.token))
}

/// The store once a transaction's buffered rows are applied.
pub open spec fn store_after_commit(s: StoreModel, t: TxnModel) -> StoreModel {
    StoreModel {
        subscribers: match t.subscriber {
            Some(sub) => s.subscribers.push(sub),
            None => s.subscribers,
        },
        tokens: match t.token {
            Some(tok) => s.tokens.push(tok),
            None => s.tokens,
        },
    }
}

/// Opens an empty transaction.
pub fn begin() -> (t: Transaction)
    ensures
        t@.subscriber is None,
        t@.token is None,
{
    Transaction { subscriber: None, token: None }
}

/// Buffers the subscriber row of a fresh sign-up: the given id, the
/// validated name and email, the insertion timestamp, and status
/// `PendingConfirmation`. Returns the id, as the row's key.
pub fn insert_subscriber(
    transaction: &mut Transaction,
    new_subscriber: &NewSubscriber,
    id: u128,
    subscribed_at: i64,
) -> (r: u128)
    ensures
        r == id,
        final(transaction)@.subscriber == Some(
            pending_subscriber(id, new_subscriber.email@, new_subscriber.name@, subscribed_at),
        ),
        final(transaction)@.token == old(transaction)@.token,
{
    transaction.subscriber = Some(
        SubscriberRecord {
            id,
            email: String::from_str(new_subscriber.email.as_ref()),
            name: String::from_str(new_subscriber.name.as_ref()),
            subscribed_at,
            status: SubscriberStatus::PendingConfirmation,
        },
    );
    id
}

/// Buffers the token row of a fresh sign-up, referencing the buffered
/// subscriber by id.
pub fn store_token(transaction: &mut Transaction, subscriber_id: u128, subscription_token: &str)
    ensures
        final(transaction)@.token == Some(
            TokenModel { token: subscription_token@, subscriber_id },
        ),
        final(transaction)@.subscriber == old(transaction)@.subscriber,
{
    transaction.token = Some(
        TokenRecord { subscription_token: String::from_str(subscription_token), subscriber_id },
    );
}

impl SubscriptionStore {
    /// An empty store.
    pub fn new() -> (s: SubscriptionStore)
        ensures
            s@.subscribers.len() == 0,
            s@.tokens.len() == 0,
            store_wf(s@),
    {
        SubscriptionStore { subscribers: Vec::new(), tokens: Vec::new() }
    }

    /// Whether a subscriber row with this id exists.
    pub fn contains_subscriber_id(&self, id: u128) -> (r: bool)
        ensures
            r == has_subscriber_id(self@, id),
    {
        let n = self.subscribers.len();
        let mut i: usize = 0;
        while i < n
            invariant
                n == self.subscribers.len(),
                i <= n,
                forall|k: int| 0 <= k < i ==> (#[trigger] self@.subscribers[k]).id != id,
            decreases n - i,
        {
            if self.subscribers[i].id == id {
                assert(self@.subscribers[i as int].id == id);
                return true;
            }
            i += 1;
        }
        false
    }

    /// Whether a token row with this token string exists.
    pub fn contains_token(&self, subscription_token: &String) -> (r: bool)
        ensures
            r == has_token(self@, subscription_token@),
    {
        let n = self.tokens.len();
        let mut i: usize = 0;
        while i < n
            invariant
                n == self.tokens.len(),
                i <= n,
                forall|k: int|
                    0 <= k < i ==> (#[trigger] self@.tokens[k]).token != subscription_token@,
            decreases n - i,
        {
            if self.tokens[i].subscription_token.eq(subscription_token) {
                assert(self@.tokens[i as int].token == subscription_token@);
                return true;
            }
            i += 1;
        }
        false
    }

    /// Looks a token up and returns the id of the subscriber it
    /// references, or `None` for a token the store has never issued.
    pub fn get_subscriber_id_from_token(&self, subscription_token: &String) -> (r: Option<u128>)
        requires
            store_wf(self@),
        ensures
            r is Some <==> has_token(self@, subscription_token@),
            r matches Some(id) ==> id == token_owner(self@, subscription_token@)
                && has_subscriber_id(self@, id),
    {
        let n = self.tokens.len();
        let mut i: usize = 0;
        while i < n
            invariant
                store_wf(self@),
                n == self.tokens.len(),
                i <= n,
                forall|k: int|
                    0 <= k < i ==> (#[trigger] self@.tokens[k]).token != subscription_token@,
            decreases n - i,
        {
            if self.tokens[i].subscription_token.eq(subscription_token) {
                assert(self@.tokens[i as int].token == subscription_token@);
                proof {
                    assert(has_token(self@, subscription_token@));
                    let j = choose|j: int|
                        0 <= j < self@.tokens.len() && (#[trigger] self@.tokens[j]).token
                            == subscription_token@;
                    assert(self@.tokens[j].token == subscription_token@);
                    if j < i as int {
                        assert(self@.tokens[j].token != self@.tokens[i as int].token);
                    } else if (i as int) < j {
                        assert(self@.tokens[i as int].token != self@.tokens[j].token);
                    }
                    assert(j == i as int);
                    assert(self@.tokens[i as int].subscriber_id == token_owner(
                        self@,
                        subscription_token@,
                    ));
                }
                return Some(self.tokens[i].subscriber_id);
            }
            i += 1;
        }
        None
    }

    /// Sets the status of the subscriber with this id to `Confirmed`,
    /// leaving every other row untouched. Updating an id the store does
    /// not hold, or one already confirmed, changes nothing.
    pub fn confirm_subscriber(&mut self, id: u128)
        requires
            store_wf(old(self)@),
        ensures
            final(self)@ == with_status_confirmed(old(self)@, id),
            store_wf(final(self)@),
    {
        let n = self.subscribers.len();
        let mut i: usize = 0;
        while i < n
            invariant
                n == self.subscribers.len(),
                n == old(self).subscribers.len(),
                i <= n,
                self.tokens@ == old(self).tokens@,
                forall|k: int|
                    i <= k < n ==> self.subscribers@[k] == #[trigger] old(self).subscribers@[k],
                forall|k: int|
                    0 <= k < i ==> (#[trigger] self.subscribers@[k])@ == confirm_one(
                        old(self).subscribers@[k]@,
                        id,
                    ),
            decreases n - i,
        {
            let ghost prev = self.subscribers@;
            if self.subscribers[i].id == id {
                self.subscribers[i].status = SubscriberStatus::Confirmed;
            }
            proof {
                assert(self.subscribers@[i as int]@ =~= confirm_one(
                    old(self).subscribers@[i as int]@,
                    id,
                ));
                assert(forall|k: int| 0 <= k < i ==> self.subscribers@[k] == #[trigger] prev[k]);
            }
            i += 1;
        }
        proof {
            let target = with_status_confirmed(old(self)@, id);
            assert forall|k: int| 0 <= k < n implies final(self)@.subscribers[k]
                == target.subscribers[k] by {
                assert(final(self)@.subscribers[k] == final(self).subscribers@[k]@);
                assert(target.subscribers[k] == confirm_one(old(self)@.subscribers[k], id));
                assert(old(self)@.subscribers[k] == old(self).subscribers@[k]@);
            }
            assert(final(self)@.subscribers =~= target.subscribers);
            assert(final(self)@.tokens =~= target.tokens);
            assert(final(self)@ =~= target);
            lemma_confirm_preserves_wf(old(self)@, id);
        }
    }
}

/// One subscriber row after a confirmation of `id`: its status becomes
/// `Confirmed` when it is the row addressed, otherwise it is unchanged.
pub open spec fn confirm_one(m: SubscriberModel, id: u128) -> SubscriberModel {
    if m.id == id {
        SubscriberModel { status: SubscriberStatus::Confirmed, ..m }
    } else {
        m
    }
}

/// The store after confirmation of a subscriber id: that row confirmed,
/// everything else as before.
pub open spec fn with_status_confirmed(s: StoreModel, id: u128) -> StoreModel {
    StoreModel {
        subscribers: s.subscribers.map_values(|m: SubscriberModel| confirm_one(m, id)),
        tokens: s.tokens,
    }
}

/// Confirming is idempotent: confirming a subscriber that a prior
/// confirmation already confirmed changes nothing, so a second request
/// with the same token succeeds and leaves the same store.
pub proof fn lemma_confirm_idempotent(s: StoreModel, id: u128)
    ensures
        with_status_confirmed(with_status_confirmed(s, id), id) == with_status_confirmed(s, id),
{
    let once = with_status_confirmed(s, id);
    let twice = with_status_confirmed(once, id);
    assert forall|k: int| 0 <= k < s.subscribers.len() implies twice.subscribers[k]
        == once.subscribers[k] by {
        assert(once.subscribers[k] == confirm_one(s.subscribers[k], id));
        assert(twice.subscribers[k] == confirm_one(once.subscribers[k], id));
    }
    assert(twice.subscribers =~= once.subscribers);
    assert(twice =~= once);
}

/// Confirming a token the store holds, twice, is the same as confirming
/// it once: the first confirmation leaves every token row in place, so
/// the second resolves the token to the same subscriber and finds its
/// status already `Confirmed`.
pub proof fn lemma_reconfirming_a_token_is_a_no_op(s: StoreModel, token: Seq<char>)
    requires
        store_wf(s),
        has_token(s, token),
    ensures
        ({
            let once = with_status_confirmed(s, token_owner(s, token));
            &&& has_token(once, token)
            &&& token_owner(once, token) == token_owner(s, token)
            &&& with_status_confirmed(once, token_owner(once, token)) == once
        }),
{
    lemma_confirm_idempotent(s, token_owner(s, token));
}

/// A status only ever moves forward: confirmation never returns a
/// confirmed subscriber to pending, and it touches no other field of
/// any row.
pub proof fn lemma_status_moves_forward(s: StoreModel, id: u128, k: int)
    requires
        0 <= k < s.subscribers.len(),
    ensures
        s.subscribers[k].status is Confirmed ==> with_status_confirmed(
            s,
            id,
        ).subscribers[k].status is Confirmed,
        with_status_confirmed(s, id).subscribers[k].status is PendingConfirmation
            ==> s.subscribers[k].status is PendingConfirmation,
        with_status_confirmed(s, id).subscribers[k].id == s.subscribers[k].id,
        with_status_confirmed(s, id).subscribers[k].email == s.subscribers[k].email,
        with_status_confirmed(s, id).subscribers[k].name == s.subscribers[k].name,
        with_status_confirmed(s, id).subscribers[k].subscribed_at
            == s.subscribers[k].subscribed_at,
{
    assert(with_status_confirmed(s, id).subscribers[k] == confirm_one(s.subscribers[k], id));
}

/// Confirmation preserves the store's invariants: it touches no id, no
/// token, and no reference.
pub proof fn lemma_confirm_preserves_wf(s: StoreModel, id: u128)
    requires
        store_wf(s),
    ensures
        store_wf(with_status_confirmed(s, id)),
{
    let t = with_status_confirmed(s, id);
    assert forall|i: int| 0 <= i < t.tokens.len() implies has_subscriber_id(
        t,
        (#[trigger] t.tokens[i]).subscriber_id,
    ) by {
        let sid = s.tokens[i].subscriber_id;
        let j = choose|j: int| 0 <= j < s.subscribers.len() && (#[trigger] s.subscribers[j]).id
            == sid;
        assert(t.subscribers[j].id == sid);
    }
}

/// Applies a transaction's buffered rows to the store: both rows or,
/// when a row would collide with one already present, none. Succeeds
/// exactly when the buffered rows are fresh.
pub fn commit(store: &mut SubscriptionStore, transaction: Transaction) -> (r: Result<
    (),
    StoreError,
>)
    requires
        store_wf(old(store)@),
        txn_wf(transaction@),
    ensures
        store_wf(final(store)@),
        r is Ok <==> txn_fresh(old(store)@, transaction@),
        r is Ok ==> final(store)@ == store_after_commit(old(store)@, transaction@),
        r is Err ==> final(store)@ == old(store)@,
{
    let ghost pre = store@;
    let ghost t = transaction@;
    let Transaction { subscriber, token } = transaction;
    match subscriber {
        None => {
            match token {
                None => Ok(()),
                Some(_) => {
                    proof {
                        assert(false);
                    }
                    Err(StoreError::Database)
                },
            }
        },
        Some(sub) => {
            if store.contains_subscriber_id(sub.id) {
                return Err(StoreError::Database);
            }
            match token {
                None => {
                    let ghost sub_m = sub@;
                    store.subscribers.push(sub);
                    proof {
                        assert(final(store)@.subscribers =~= pre.subscribers.push(sub_m));
                        assert(final(store)@.tokens =~= pre.tokens);
                        assert(final(store)@ =~= store_after_commit(pre, t));
                        lemma_commit_preserves_wf(pre, t);
                    }
                    Ok(())
                },
                Some(tok) => {
                    if store.contains_token(&tok.subscription_token) {
                        return Err(StoreError::Database);
                    }
                    let ghost sub_m = sub@;
                    let ghost tok_m = tok@;
                    store.subscribers.push(sub);
                    store.tokens.push(tok);
                    proof {
                        assert(final(store)@.subscribers =~= pre.subscribers.push(sub_m));
                        assert(final(store)@.tokens =~= pre.tokens.push(tok_m));
                        assert(final(store)@ =~= store_after_commit(pre, t));
                        lemma_commit_preserves_wf(pre, t);
                    }
                    Ok(())
                },
            }
        },
    }
}

/// Committing fresh, coherent rows preserves the store's invariants.
pub proof fn lemma_commit_preserves_wf(s: StoreModel, t: TxnModel)
    requires
        store_wf(s),
        txn_wf(t),
        txn_fresh(s, t),
    ensures
        store_wf(store_after_commit(s, t)),
{
    let u = store_after_commit(s, t);
    assert forall|i: int| 0 <= i < u.tokens.len() implies has_subscriber_id(
        u,
        (#[trigger] u.tokens[i]).subscriber_id,
    ) by {
        if i < s.tokens.len() {
            let sid = s.tokens[i].subscriber_id;
            let j = choose|j: int|
                0 <= j < s.subscribers.len() && (#[trigger] s.subscribers[j]).id == sid;
            assert(u.subscribers[j].id == sid);
        } else {
            let sub = t.subscriber->Some_0;
            assert(u.subscribers[u.subscribers.len() - 1].id == sub.id);
        }
    }
}

} // verus!
