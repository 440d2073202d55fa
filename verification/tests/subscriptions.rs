use zero2prod_axum::domain::NewSubscriber;
use zero2prod_axum::routes::health_check;
use zero2prod_axum::routes::subscriptions::{
    Action, Event, RequestState, StorageError, SubscriptionRecord, Timestamp,
};
use zero2prod_axum::routes::{new_record, step, FormData, Outcome};

fn form(name: &str, email: &str) -> FormData {
    FormData { email: email.to_string(), name: name.to_string() }
}

#[test]
fn valid_form_becomes_a_subscriber_with_the_same_fields() {
    let subscriber = NewSubscriber::try_from(form("le guin", "ursula_le_guin@gmail.com"))
        .ok()
        .unwrap();
    assert_eq!(subscriber.name.as_ref(), "le guin");
    assert_eq!(subscriber.email.as_ref(), "ursula_le_guin@gmail.com");
}

#[test]
fn conversion_works_through_try_into() {
    let converted: Result<NewSubscriber, String> = form("le guin", "not-an-email").try_into();
    assert!(converted.is_err());
}

#[test]
fn invalid_email_fails_the_conversion() {
    let message = NewSubscriber::try_from(form("le guin", "not-an-email")).err().unwrap();
    assert_eq!(message, "invalid email not-an-email");
}

#[test]
fn invalid_name_fails_the_conversion() {
    let message =
        NewSubscriber::try_from(form("le (guin)", "ursula_le_guin@gmail.com")).err().unwrap();
    assert_eq!(message, "le (guin) is not valid subscriber name");
}

#[test]
fn only_the_email_is_reported_when_both_fields_are_invalid() {
    let message = NewSubscriber::try_from(form("", "")).err().unwrap();
    assert_eq!(message, "invalid email ");
}

#[test]
fn record_holds_what_it_was_given() {
    let subscriber = NewSubscriber::try_from(form("le guin", "ursula_le_guin@gmail.com"))
        .ok()
        .unwrap();
    let at = Timestamp { seconds: 1_700_000_000, nanoseconds: 123_456_789 };
    let record = SubscriptionRecord::new(&subscriber, 0x1234_5678_9abc_4def_8123_4567_89ab_cdef, at);
    assert_eq!(record.id, 0x1234_5678_9abc_4def_8123_4567_89ab_cdef);
    assert_eq!(record.name, "le guin");
    assert_eq!(record.email, "ursula_le_guin@gmail.com");
    assert_eq!(record.subscribed_at, at);
}

#[test]
fn new_record_round_trips_name_and_email() {
    let subscriber = NewSubscriber::try_from(form("le guin", "ursula_le_guin@gmail.com"))
        .ok()
        .unwrap();
    let record = new_record(&subscriber);
    assert_eq!(record.name, "le guin");
    assert_eq!(record.email, "ursula_le_guin@gmail.com");
}

#[test]
fn new_record_draws_a_random_identifier() {
    let subscriber = NewSubscriber::try_from(form("le guin", "ursula_le_guin@gmail.com"))
        .ok()
        .unwrap();
    let record = new_record(&subscriber);
    assert_eq!((record.id >> 76) & 0xf, 4);
    assert_eq!((record.id >> 62) & 0x3, 2);
    assert_eq!(uuid::Uuid::from_u128(record.id).get_version_num(), 4);
}

#[test]
fn new_record_reads_the_clock() {
    let subscriber = NewSubscriber::try_from(form("le guin", "ursula_le_guin@gmail.com"))
        .ok()
        .unwrap();
    let before = chrono::Utc::now().timestamp();
    let record = new_record(&subscriber);
    let after = chrono::Utc::now().timestamp();
    assert!(before <= record.subscribed_at.seconds);
    assert!(record.subscribed_at.seconds <= after);
    assert!(record.subscribed_at.nanoseconds < 1_000_000_000);
}

#[test]
fn same_submission_twice_makes_two_distinct_rows() {
    let first = match step(
        RequestState::Received,
        Event::Submitted(form("le guin", "ursula_le_guin@gmail.com")),
    ) {
        (RequestState::Validated, Action::Store(subscriber)) => new_record(&subscriber),
        _ => panic!("the first submission was not accepted"),
    };
    let second = match step(
        RequestState::Received,
        Event::Submitted(form("le guin", "ursula_le_guin@gmail.com")),
    ) {
        (RequestState::Validated, Action::Store(subscriber)) => new_record(&subscriber),
        _ => panic!("the second submission was not accepted"),
    };
    assert_ne!(first.id, second.id);
    assert_eq!(first.name, second.name);
    assert_eq!(first.email, second.email);
}

#[test]
fn valid_submission_is_stored_and_answered_with_200() {
    let (state, action) = step(
        RequestState::Received,
        Event::Submitted(form("le guin", "ursula_le_guin@gmail.com")),
    );
    assert_eq!(state, RequestState::Validated);
    assert_eq!(state.outcome(), None);
    let subscriber = match action {
        Action::Store(subscriber) => subscriber,
        Action::Respond(_) => panic!("a valid form was answered before the write"),
    };
    let record = new_record(&subscriber);
    assert_eq!(record.name, "le guin");
    assert_eq!(record.email, "ursula_le_guin@gmail.com");

    let (state, action) = step(state, Event::StoreFinished(Ok(())));
    assert_eq!(state, RequestState::Stored);
    assert_eq!(state.outcome(), Some(Outcome::Success));
    match action {
        Action::Respond(outcome) => {
            assert_eq!(outcome, Outcome::Success);
            let response = outcome.response();
            assert_eq!(response.status, 200);
            assert_eq!(response.body.len(), 0);
        }
        Action::Store(_) => panic!("a second write was asked for"),
    }
}

#[test]
fn invalid_email_is_answered_with_400_and_no_write() {
    let (state, action) =
        step(RequestState::Received, Event::Submitted(form("le guin", "not-an-email")));
    assert_eq!(state, RequestState::Rejected);
    assert_eq!(state.outcome(), Some(Outcome::ClientError));
    match action {
        Action::Respond(outcome) => {
            assert_eq!(outcome, Outcome::ClientError);
            let response = outcome.response();
            assert_eq!(response.status, 400);
            assert_eq!(response.body, "");
        }
        Action::Store(_) => panic!("a write was asked for an invalid form"),
    }
}

#[test]
fn invalid_name_is_answered_with_400_and_no_write() {
    let (state, action) =
        step(RequestState::Received, Event::Submitted(form("   ", "ursula_le_guin@gmail.com")));
    assert_eq!(state, RequestState::Rejected);
    assert!(matches!(action, Action::Respond(Outcome::ClientError)));
}

#[test]
fn failed_write_is_answered_with_500_and_no_detail() {
    let (state, action) = step(RequestState::Validated, Event::StoreFinished(Err(StorageError)));
    assert_eq!(state, RequestState::StorageFailed);
    assert_eq!(state.outcome(), Some(Outcome::ServerError));
    match action {
        Action::Respond(outcome) => {
            let response = outcome.response();
            assert_eq!(response.status, 500);
            assert_eq!(response.body, "");
        }
        Action::Store(_) => panic!("a failed write was tried again"),
    }
}

#[test]
fn health_check_is_200_with_an_empty_body() {
    let response = health_check().response();
    assert_eq!(response.status, 200);
    assert_eq!(response.body.len(), 0);
}

#[test]
fn status_codes_of_the_outcomes() {
    assert_eq!(Outcome::Success.status_code(), 200);
    assert_eq!(Outcome::ClientError.status_code(), 400);
    assert_eq!(Outcome::ServerError.status_code(), 500);
}

#[test]
fn each_state_waits_for_its_own_event() {
    let submitted = Event::Submitted(form("le guin", "ursula_le_guin@gmail.com"));
    let finished = Event::StoreFinished(Ok(()));
    assert!(RequestState::Received.awaits(&submitted));
    assert!(!RequestState::Received.awaits(&finished));
    assert!(RequestState::Validated.awaits(&finished));
    assert!(!RequestState::Validated.awaits(&submitted));
    for over in [RequestState::Rejected, RequestState::Stored, RequestState::StorageFailed] {
        assert!(!over.awaits(&submitted));
        assert!(!over.awaits(&finished));
        assert!(over.outcome().is_some());
    }
}
