//! The subscription workflow.
//!
//! One sign-up request runs validation, a transaction that inserts the
//! subscriber row and its token row, a commit, and then — only after the
//! commit — the confirmation email. One confirmation request runs a
//! token lookup and a status update. The environment (the database and
//! the notification endpoint) may fail at any step; its behaviour for
//! one request is a parameter, and the contracts state the outcome and
//! the visible store for every behaviour: failures before the commit
//! leave no partial row, and a send failure after the commit leaves the
//! subscriber persisted as pending.

use vstd::prelude::*;
use crate::domain::{FormData, NewSubscriber, email_is_valid, name_is_valid};
use crate::email::{ConfirmationEmail, confirmation_email_of, build_confirmation_email};
use crate::store::{
    StoreModel, SubscriptionStore, TokenModel, begin, commit, has_subscriber_id, has_token,
    insert_subscriber, pending_subscriber, store_token, store_wf, token_owner,
    with_status_confirmed,
};
use crate::token::{generate_random_subscription_token, token_wf};

verus! {

/// Query parameters of the confirmation endpoint.
pub struct Parameters {
    pub subscription_token: String,
}

/// HTTP status for a handled request.
pub const STATUS_OK: u16 = 200;

/// HTTP status for input that failed validation.
pub const STATUS_BAD_REQUEST: u16 = 400;

/// HTTP status for a confirmation token the store has never issued.
pub const STATUS_UNAUTHORIZED: u16 = 401;

/// HTTP status for a form with a missing field.
pub const STATUS_UNPROCESSABLE_ENTITY: u16 = 422;

/// HTTP status for a storage or notification failure.
pub const STATUS_INTERNAL_SERVER_ERROR: u16 = 500;

/// The database step at which the environment fails a sign-up request.
#[derive(Clone, Copy, PartialEq, Eq, Structural, Debug)]
pub enum StoreFault {
    InsertSubscriber,
    StoreToken,
    Commit,
}

/// The environment's behaviour during one sign-up request: whether the
/// database fails a step, and whether the notification endpoint accepts
/// the email within its deadline.
#[derive(Clone, Copy, Debug)]
pub struct SubscribeEnv {
    pub store_fault: Option<StoreFault>,
    pub email_accepted: bool,
}

/// The environment's behaviour during one confirmation request.
#[derive(Clone, Copy, Debug)]
pub struct ConfirmEnv {
    pub lookup_fails: bool,
    pub update_fails: bool,
}

/// Both fields of the sign-up form are valid.
pub open spec fn form_valid(email: Seq<char>, name: Seq<char>) -> bool {
    name_is_valid(name) && email_is_valid(email)
}

/// The store grew by exactly one pending subscriber row carrying this
/// email and name, and one well-formed token row referencing it; nothing
/// else changed.
pub open spec fn signup_appended(
    pre: StoreModel,
    post: StoreModel,
    email: Seq<char>,
    name: Seq<char>,
) -> bool {
    &&& post.subscribers.len() == pre.subscribers.len() + 1
    &&& post.tokens.len() == pre.tokens.len() + 1
    &&& post.subscribers == pre.subscribers.push(post.subscribers.last())
    &&& post.tokens == pre.tokens.push(post.tokens.last())
    &&& post.subscribers.last() == pending_subscriber(
        post.subscribers.last().id,
        email,
        name,
        post.subscribers.last().subscribed_at,
    )
    &&& post.tokens.last().subscriber_id == post.subscribers.last().id
    &&& token_wf(post.tokens.last().token)
}

/// Missing form fields are rejected before validation, as the HTTP
/// layer rejects a form that does not deserialize: no write happens and
/// the client is told the payload was unprocessable.
pub fn parse_form_data(email: Option<String>, name: Option<String>) -> (r: Result<FormData, u16>)
    ensures
        r is Ok <==> email is Some && name is Some,
        r matches Ok(d) ==> d.email@ == email->0@ && d.name@ == name->0@,
        r matches Err(code) ==> code == STATUS_UNPROCESSABLE_ENTITY,
{
    match (email, name) {
        (Some(email), Some(name)) => Ok(FormData { email, name }),
        _ => Err(STATUS_UNPROCESSABLE_ENTITY),
    }
}

/// Handles one sign-up request with every outside choice — the new
/// subscriber's id, the insertion timestamp, the token — supplied by
/// the caller, so the outcome is pinned down exactly: validation
/// failures report 400 and write nothing; a database failure at any
/// step, or a collision of id or token with an existing row, reports
/// 500 and leaves the store exactly as it was; after a successful
/// commit both rows are visible together, and a rejected email reports
/// 500 while the committed rows remain, pending.
pub fn subscribe_with(
    store: &mut SubscriptionStore,
    data: FormData,
    base_url: &str,
    subscriber_id: u128,
    subscribed_at: i64,
    subscription_token: String,
    env: &SubscribeEnv,
) -> (r: (u16, Option<ConfirmationEmail>))
    requires
        store_wf(old(store)@),
        token_wf(subscription_token@),
    ensures
        store_wf(final(store)@),
        ({
            let valid = form_valid(data.email@, data.name@);
            let fresh = !has_subscriber_id(old(store)@, subscriber_id) && !has_token(
                old(store)@,
                subscription_token@,
            );
            let committed = valid && env.store_fault is None && fresh;
            &&& !valid ==> r.0 == STATUS_BAD_REQUEST && final(store)@ == old(store)@ && r.1
                is None
            &&& valid && env.store_fault is Some ==> r.0 == STATUS_INTERNAL_SERVER_ERROR
                && final(store)@ == old(store)@ && r.1 is None
            &&& valid && env.store_fault is None && !fresh ==> r.0
                == STATUS_INTERNAL_SERVER_ERROR && final(store)@ == old(store)@ && r.1 is None
            &&& committed ==> final(store)@.subscribers == old(store)@.subscribers.push(
                pending_subscriber(subscriber_id, data.email@, data.name@, subscribed_at),
            ) && final(store)@.tokens == old(store)@.tokens.push(
                TokenModel { token: subscription_token@, subscriber_id },
            )
            &&& committed && env.email_accepted ==> r.0 == STATUS_OK && (r.1 matches Some(e)
                && e@ == confirmation_email_of(data.email@, base_url@, subscription_token@))
            &&& committed && !env.email_accepted ==> r.0 == STATUS_INTERNAL_SERVER_ERROR && r.1
                is None
        }),
{
    let new_subscriber = match NewSubscriber::try_from(data) {
        Ok(new_subscriber) => new_subscriber,
        Err(_) => {
            return (STATUS_BAD_REQUEST, None);
        },
    };
    let mut transaction = begin();
    match env.store_fault {
        Some(StoreFault::InsertSubscriber) => {
            return (STATUS_INTERNAL_SERVER_ERROR, None);
        },
        _ => {},
    }
    let subscriber_id = insert_subscriber(
        &mut transaction,
        &new_subscriber,
        subscriber_id,
        subscribed_at,
    );
    match env.store_fault {
        Some(StoreFault::StoreToken) => {
            return (STATUS_INTERNAL_SERVER_ERROR, None);
        },
        _ => {},
    }
    store_token(&mut transaction, subscriber_id, subscription_token.as_str());
    match env.store_fault {
        Some(StoreFault::Commit) => {
            return (STATUS_INTERNAL_SERVER_ERROR, None);
        },
        _ => {},
    }
    if commit(store, transaction).is_err() {
        return (STATUS_INTERNAL_SERVER_ERROR, None);
    }
    let email = build_confirmation_email(
        &new_subscriber,
        base_url,
        subscription_token.as_str(),
    );
    if !env.email_accepted {
        return (STATUS_INTERNAL_SERVER_ERROR, None);
    }
    (STATUS_OK, Some(email))
}

/// Relies on uuid's Uuid::new_v4 for the new subscriber's identifier,
/// carried as its 128-bit value. The value is random, so nothing is
/// stated about it.
#[verifier::external_body]
fn new_subscriber_id() -> u128 {
    uuid::Uuid::new_v4().as_u128()
}

/// Relies on time's OffsetDateTime::now_utc for the insertion
/// timestamp, carried as its Unix timestamp in seconds. The value
/// depends on the clock, so nothing is stated about it.
#[verifier::external_body]
fn now_unix_timestamp() -> i64 {
    time::OffsetDateTime::now_utc().unix_timestamp()
}

/// Handles one sign-up request, drawing the subscriber id, the
/// timestamp and the token from the environment. Whatever those draws
/// yield: invalid input reports 400 and writes nothing; a reported 200
/// means exactly one pending subscriber row with this email and name
/// and one token row referencing it became visible, together, and the
/// confirmation email carries that token; a reported 500 left the store
/// unchanged or — only when the commit succeeded and the email was then
/// rejected — extended by exactly that pending pair. The draws can
/// collide with existing rows, so a 200 cannot be owed for an arbitrary
/// store; against an empty store no draw can collide, and there a
/// healthy environment and valid input are owed a 200.
pub fn subscribe(
    store: &mut SubscriptionStore,
    data: FormData,
    base_url: &str,
    env: &SubscribeEnv,
) -> (r: (u16, Option<ConfirmationEmail>))
    requires
        store_wf(old(store)@),
    ensures
        store_wf(final(store)@),
        ({
            let valid = form_valid(data.email@, data.name@);
            &&& r.0 == STATUS_OK || r.0 == STATUS_BAD_REQUEST || r.0
                == STATUS_INTERNAL_SERVER_ERROR
            &&& r.0 == STATUS_BAD_REQUEST <==> !valid
            &&& !valid ==> final(store)@ == old(store)@
            &&& env.store_fault is Some ==> final(store)@ == old(store)@ && r.0 != STATUS_OK
            &&& valid && !env.email_accepted ==> r.0 == STATUS_INTERNAL_SERVER_ERROR
            &&& r.0 == STATUS_OK ==> signup_appended(
                old(store)@,
                final(store)@,
                data.email@,
                data.name@,
            ) && (r.1 matches Some(e) && e@ == confirmation_email_of(
                data.email@,
                base_url@,
                final(store)@.tokens.last().token,
            ))
            &&& r.0 == STATUS_INTERNAL_SERVER_ERROR ==> final(store)@ == old(store)@
                || signup_appended(old(store)@, final(store)@, data.email@, data.name@)
            &&& r.1 is Some <==> r.0 == STATUS_OK
            &&& valid && env.store_fault is None && env.email_accepted && old(
                store,
            )@.subscribers.len() == 0 && old(store)@.tokens.len() == 0 ==> r.0 == STATUS_OK
        }),
{
    let subscriber_id = new_subscriber_id();
    let subscribed_at = now_unix_timestamp();
    let subscription_token = generate_random_subscription_token();
    let r = subscribe_with(
        store,
        data,
        base_url,
        subscriber_id,
        subscribed_at,
        subscription_token,
        env,
    );
    r
}

/// Handles one confirmation request: a failed lookup reports 500 and
/// writes nothing; a token the store has never issued — unknown or
/// malformed alike — reports 401 and writes nothing, never a server
/// error; a failed update reports 500 and writes nothing; otherwise the
/// referenced subscriber's status becomes `Confirmed` — already
/// confirmed rows stay confirmed — and nothing else changes.
pub fn confirm(store: &mut SubscriptionStore, params: Parameters, env: &ConfirmEnv) -> (status:
    u16)
    requires
        store_wf(old(store)@),
    ensures
        store_wf(final(store)@),
        env.lookup_fails ==> status == STATUS_INTERNAL_SERVER_ERROR && final(store)@ == old(
            store,
        )@,
        !env.lookup_fails && !has_token(old(store)@, params.subscription_token@) ==> status
            == STATUS_UNAUTHORIZED && final(store)@ == old(store)@,
        !env.lookup_fails && has_token(old(store)@, params.subscription_token@)
            && env.update_fails ==> status == STATUS_INTERNAL_SERVER_ERROR && final(store)@
            == old(store)@,
        !env.lookup_fails && has_token(old(store)@, params.subscription_token@)
            && !env.update_fails ==> status == STATUS_OK && final(store)@
            == with_status_confirmed(
            old(store)@,
            token_owner(old(store)@, params.subscription_token@),
        ),
{
    if env.lookup_fails {
        return STATUS_INTERNAL_SERVER_ERROR;
    }
    let id = match store.get_subscriber_id_from_token(&params.subscription_token) {
        None => {
            return STATUS_UNAUTHORIZED;
        },
        Some(id) => id,
    };
    if env.update_fails {
        return STATUS_INTERNAL_SERVER_ERROR;
    }
    store.confirm_subscriber(id);
    STATUS_OK
}

} // verus!
