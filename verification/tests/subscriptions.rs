//! The sign-up workflow against the in-memory store, including the
//! scenarios of the HTTP surface: 200 for valid form data, 422 for a
//! missing field, 400 for invalid input, 500 with no partial row for
//! storage failures, and 500 with a persisted pending row when only the
//! email is rejected.

use zero2prod::domain::FormData;
use zero2prod::store::{SubscriberStatus, SubscriptionStore};
use zero2prod::workflow::{
    parse_form_data, subscribe, subscribe_with, ConfirmEnv, Parameters, StoreFault, SubscribeEnv,
    confirm,
};

const BASE_URL: &str = "https://newsletter.example.com";

fn valid_form() -> FormData {
    FormData {
        email: String::from("ursula_le_guin@gmail.com"),
        name: String::from("le guin"),
    }
}

fn reliable_env() -> SubscribeEnv {
    SubscribeEnv { store_fault: None, email_accepted: true }
}

fn token_of(n: u8) -> String {
    let mut t = String::new();
    for i in 0..25u8 {
        t.push(char::from(b'A' + ((n + i) % 26)));
    }
    t
}

#[test]
fn subscribe_returns_200_for_valid_form_data() {
    let mut store = SubscriptionStore::new();

    let (status, _email) =
        subscribe_with(&mut store, valid_form(), BASE_URL, 1, 1_700_000_000, token_of(0), &reliable_env());

    assert_eq!(status, 200);
    assert_eq!(store.subscribers.len(), 1);
    let saved = &store.subscribers[0];
    assert_eq!(saved.email, "ursula_le_guin@gmail.com");
    assert_eq!(saved.name, "le guin");
    assert_eq!(saved.status, SubscriberStatus::PendingConfirmation);
}

#[test]
fn subscribe_returns_422_when_data_is_missing() {
    let test_cases = [
        (None, Some(String::from("le guin")), "missing the email"),
        (Some(String::from("ursula_le_guin@gmail.com")), None, "missing the name"),
        (None, None, "missing both name and email"),
    ];

    for (email, name, error_message) in test_cases {
        match parse_form_data(email, name) {
            Ok(_) => panic!(
                "The form did not fail with 422 Unprocessable Entity when the payload was {}.",
                error_message
            ),
            Err(code) => assert_eq!(code, 422, "{}", error_message),
        }
    }
}

#[test]
fn a_complete_form_parses_into_its_two_fields() {
    let data = parse_form_data(
        Some(String::from("ursula_le_guin@gmail.com")),
        Some(String::from("le guin")),
    )
    .expect("a complete form must parse");
    assert_eq!(data.email, "ursula_le_guin@gmail.com");
    assert_eq!(data.name, "le guin");
}

#[test]
fn subscribe_writes_exactly_one_subscriber_and_one_token_row() {
    let mut store = SubscriptionStore::new();

    let (status, _email) =
        subscribe_with(&mut store, valid_form(), BASE_URL, 42, 1_700_000_000, token_of(3), &reliable_env());

    assert_eq!(status, 200);
    assert_eq!(store.subscribers.len(), 1);
    assert_eq!(store.tokens.len(), 1);
    assert_eq!(store.subscribers[0].id, 42);
    assert_eq!(store.tokens[0].subscriber_id, 42);
    assert_eq!(store.tokens[0].subscription_token, token_of(3));
}

#[test]
fn invalid_input_returns_400_and_writes_nothing() {
    let invalid_forms = [
        ("ursula_le_guin.gmail.com", "le guin"),
        ("ursula@gmailcom", "le guin"),
        ("ursula le guin@gmail.com", "le guin"),
        ("ursula_le_guin@gmail.com", ""),
        ("ursula_le_guin@gmail.com", "   "),
        ("ursula_le_guin@gmail.com", "le/guin"),
        ("ursula_le_guin@gmail.com", "le<guin>"),
    ];
    for (email, name) in invalid_forms {
        let mut store = SubscriptionStore::new();
        let data = FormData { email: String::from(email), name: String::from(name) };

        let (status, sent) =
            subscribe_with(&mut store, data, BASE_URL, 1, 0, token_of(0), &reliable_env());

        assert_eq!(status, 400, "payload ({email}, {name})");
        assert!(sent.is_none());
        assert_eq!(store.subscribers.len(), 0);
        assert_eq!(store.tokens.len(), 0);
    }
}

#[test]
fn a_database_failure_at_any_step_returns_500_and_writes_nothing() {
    for fault in [StoreFault::InsertSubscriber, StoreFault::StoreToken, StoreFault::Commit] {
        let mut store = SubscriptionStore::new();
        let env = SubscribeEnv { store_fault: Some(fault), email_accepted: true };

        let (status, sent) =
            subscribe_with(&mut store, valid_form(), BASE_URL, 1, 0, token_of(0), &env);

        assert_eq!(status, 500, "fault {:?}", fault);
        assert!(sent.is_none());
        assert_eq!(store.subscribers.len(), 0);
        assert_eq!(store.tokens.len(), 0);
    }
}

#[test]
fn a_rejected_email_returns_500_but_keeps_the_pending_subscriber() {
    let mut store = SubscriptionStore::new();
    let env = SubscribeEnv { store_fault: None, email_accepted: false };

    let (status, sent) =
        subscribe_with(&mut store, valid_form(), BASE_URL, 9, 1_700_000_000, token_of(5), &env);

    assert_eq!(status, 500);
    assert!(sent.is_none());
    assert_eq!(store.subscribers.len(), 1);
    assert_eq!(store.subscribers[0].email, "ursula_le_guin@gmail.com");
    assert_eq!(store.subscribers[0].status, SubscriberStatus::PendingConfirmation);
    assert_eq!(store.tokens.len(), 1);
}

#[test]
fn a_token_collision_rolls_the_whole_transaction_back() {
    let mut store = SubscriptionStore::new();
    let (status, _) =
        subscribe_with(&mut store, valid_form(), BASE_URL, 1, 0, token_of(0), &reliable_env());
    assert_eq!(status, 200);

    let second = FormData {
        email: String::from("kurt_vonnegut@gmail.com"),
        name: String::from("kurt"),
    };
    let (status, sent) =
        subscribe_with(&mut store, second, BASE_URL, 2, 0, token_of(0), &reliable_env());

    assert_eq!(status, 500);
    assert!(sent.is_none());
    assert_eq!(store.subscribers.len(), 1);
    assert_eq!(store.tokens.len(), 1);
}

#[test]
fn an_id_collision_rolls_the_whole_transaction_back() {
    let mut store = SubscriptionStore::new();
    let (status, _) =
        subscribe_with(&mut store, valid_form(), BASE_URL, 1, 0, token_of(0), &reliable_env());
    assert_eq!(status, 200);

    let second = FormData {
        email: String::from("kurt_vonnegut@gmail.com"),
        name: String::from("kurt"),
    };
    let (status, sent) =
        subscribe_with(&mut store, second, BASE_URL, 1, 0, token_of(9), &reliable_env());

    assert_eq!(status, 500);
    assert!(sent.is_none());
    assert_eq!(store.subscribers.len(), 1);
    assert_eq!(store.tokens.len(), 1);
}

#[test]
fn subscribe_rejects_invalid_input_and_writes_nothing() {
    let mut store = SubscriptionStore::new();
    let data = FormData { email: String::from("not-an-email"), name: String::from("le guin") };

    let (status, sent) = subscribe(&mut store, data, BASE_URL, &reliable_env());

    assert_eq!(status, 400);
    assert!(sent.is_none());
    assert_eq!(store.subscribers.len(), 0);
    assert_eq!(store.tokens.len(), 0);
}

#[test]
fn subscribe_draws_its_own_id_timestamp_and_token() {
    let mut store = SubscriptionStore::new();

    let (status, sent) = subscribe(&mut store, valid_form(), BASE_URL, &reliable_env());

    assert_eq!(status, 200);
    assert_eq!(store.subscribers.len(), 1);
    assert_eq!(store.tokens.len(), 1);
    assert_eq!(store.tokens[0].subscription_token.len(), 25);
    let email = sent.expect("a 200 sign-up must produce a confirmation email");
    assert!(email.text_body.contains(&store.tokens[0].subscription_token));
}

#[test]
fn the_confirmation_email_carries_the_exact_link() {
    let mut store = SubscriptionStore::new();

    let (status, sent) =
        subscribe_with(&mut store, valid_form(), BASE_URL, 1, 0, token_of(7), &reliable_env());

    assert_eq!(status, 200);
    let email = sent.unwrap();
    let link = format!(
        "{}/subscriptions/confirm?subscription_token={}",
        BASE_URL,
        token_of(7)
    );
    assert_eq!(email.to, "ursula_le_guin@gmail.com");
    assert_eq!(email.subject, "Welcome!");
    assert_eq!(
        email.text_body,
        format!("Welcome to our newsletter!\nVisit {} to confirm your subscription.", link)
    );
    assert_eq!(
        email.html_body,
        format!(
            "Welcome to our newsletter!<bt />Click <a href=\"{}\">here</a> to confirm your subscription.",
            link
        )
    );
}

#[test]
fn the_whole_round_trip_confirms_the_subscriber() {
    let mut store = SubscriptionStore::new();
    let (status, sent) = subscribe(&mut store, valid_form(), BASE_URL, &reliable_env());
    assert_eq!(status, 200);

    // Pull the token out of the delivered email, as the subscriber would.
    let text = sent.unwrap().text_body;
    let marker = "subscription_token=";
    let start = text.find(marker).expect("the email must carry the link") + marker.len();
    let token: String = text[start..].chars().take_while(|c| c.is_ascii_alphanumeric()).collect();

    let cenv = ConfirmEnv { lookup_fails: false, update_fails: false };
    let status = confirm(&mut store, Parameters { subscription_token: token }, &cenv);

    assert_eq!(status, 200);
    assert_eq!(store.subscribers[0].status, SubscriberStatus::Confirmed);
}
