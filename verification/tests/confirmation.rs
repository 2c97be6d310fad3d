//! The confirmation workflow: 200 and a confirmed row for an issued
//! token, idempotently; 401 for an unknown or malformed token; 500 for
//! database failures, with no write in any failure case.

use zero2prod::domain::FormData;
use zero2prod::store::{SubscriberStatus, SubscriptionStore};
use zero2prod::workflow::{confirm, subscribe_with, ConfirmEnv, Parameters, SubscribeEnv};

const BASE_URL: &str = "https://newsletter.example.com";

fn reliable_confirm_env() -> ConfirmEnv {
    ConfirmEnv { lookup_fails: false, update_fails: false }
}

fn store_with_pending_subscriber(token: &str) -> SubscriptionStore {
    let mut store = SubscriptionStore::new();
    let data = FormData {
        email: String::from("ursula_le_guin@gmail.com"),
        name: String::from("le guin"),
    };
    let env = SubscribeEnv { store_fault: None, email_accepted: true };
    let (status, _) =
        subscribe_with(&mut store, data, BASE_URL, 1, 1_700_000_000, String::from(token), &env);
    assert_eq!(status, 200);
    store
}

const TOKEN: &str = "ABCDEFGHIJKLMNOPQRSTUVWXY";

#[test]
fn confirming_an_issued_token_returns_200_and_confirms_the_row() {
    let mut store = store_with_pending_subscriber(TOKEN);
    assert_eq!(store.subscribers[0].status, SubscriberStatus::PendingConfirmation);

    let status = confirm(
        &mut store,
        Parameters { subscription_token: String::from(TOKEN) },
        &reliable_confirm_env(),
    );

    assert_eq!(status, 200);
    assert_eq!(store.subscribers[0].status, SubscriberStatus::Confirmed);
}

#[test]
fn confirming_the_same_token_twice_is_idempotent() {
    let mut store = store_with_pending_subscriber(TOKEN);

    let first = confirm(
        &mut store,
        Parameters { subscription_token: String::from(TOKEN) },
        &reliable_confirm_env(),
    );
    let second = confirm(
        &mut store,
        Parameters { subscription_token: String::from(TOKEN) },
        &reliable_confirm_env(),
    );

    assert_eq!(first, 200);
    assert_eq!(second, 200);
    assert_eq!(store.subscribers[0].status, SubscriberStatus::Confirmed);
    assert_eq!(store.subscribers.len(), 1);
    assert_eq!(store.tokens.len(), 1);
}

#[test]
fn confirming_an_unknown_token_returns_401() {
    let mut store = store_with_pending_subscriber(TOKEN);

    let status = confirm(
        &mut store,
        Parameters { subscription_token: String::from("doesnotexist") },
        &reliable_confirm_env(),
    );

    assert_eq!(status, 401);
    assert_eq!(store.subscribers[0].status, SubscriberStatus::PendingConfirmation);
}

#[test]
fn confirming_a_malformed_token_returns_401_not_a_server_error() {
    let mut store = store_with_pending_subscriber(TOKEN);
    let malformed = ["", " ", "short", "!!!@@@###$$$%%%^^^&&&***((", TOKEN.trim_end_matches('Y')];

    for token in malformed {
        let status = confirm(
            &mut store,
            Parameters { subscription_token: String::from(token) },
            &reliable_confirm_env(),
        );
        assert_eq!(status, 401, "token {:?}", token);
        assert_eq!(store.subscribers[0].status, SubscriberStatus::PendingConfirmation);
    }
}

#[test]
fn confirming_on_an_empty_store_returns_401() {
    let mut store = SubscriptionStore::new();

    let status = confirm(
        &mut store,
        Parameters { subscription_token: String::from(TOKEN) },
        &reliable_confirm_env(),
    );

    assert_eq!(status, 401);
}

#[test]
fn a_failed_lookup_returns_500_and_writes_nothing() {
    let mut store = store_with_pending_subscriber(TOKEN);
    let env = ConfirmEnv { lookup_fails: true, update_fails: false };

    let status =
        confirm(&mut store, Parameters { subscription_token: String::from(TOKEN) }, &env);

    assert_eq!(status, 500);
    assert_eq!(store.subscribers[0].status, SubscriberStatus::PendingConfirmation);
}

#[test]
fn a_failed_update_returns_500_and_writes_nothing() {
    let mut store = store_with_pending_subscriber(TOKEN);
    let env = ConfirmEnv { lookup_fails: false, update_fails: true };

    let status =
        confirm(&mut store, Parameters { subscription_token: String::from(TOKEN) }, &env);

    assert_eq!(status, 500);
    assert_eq!(store.subscribers[0].status, SubscriberStatus::PendingConfirmation);
}

#[test]
fn get_subscriber_id_from_token_resolves_only_issued_tokens() {
    let store = store_with_pending_subscriber(TOKEN);

    assert_eq!(store.get_subscriber_id_from_token(&String::from(TOKEN)), Some(1));
    assert_eq!(store.get_subscriber_id_from_token(&String::from("doesnotexist")), None);
}

#[test]
fn confirm_subscriber_touches_only_the_addressed_row() {
    let mut store = store_with_pending_subscriber(TOKEN);
    let data = FormData {
        email: String::from("kurt_vonnegut@gmail.com"),
        name: String::from("kurt"),
    };
    let env = SubscribeEnv { store_fault: None, email_accepted: true };
    let (status, _) = subscribe_with(
        &mut store,
        data,
        BASE_URL,
        2,
        1_700_000_001,
        String::from("ZYXWVUTSRQPONMLKJIHGFEDCB"),
        &env,
    );
    assert_eq!(status, 200);

    store.confirm_subscriber(2);

    assert_eq!(store.subscribers[0].status, SubscriberStatus::PendingConfirmation);
    assert_eq!(store.subscribers[1].status, SubscriberStatus::Confirmed);
}
