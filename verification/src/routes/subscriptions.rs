//! Intake of a subscription: from raw form fields to a stored record.

use crate::domain::subscriber_email::{invalid_email_message, is_email_address, SubscriberEmail};
use crate::domain::subscriber_name::{invalid_name_message, is_valid_name, SubsciberName};
use crate::domain::{NewSubscriber, ValidationError};
use crate::routes::response::Outcome;
use vstd::prelude::*;
use vstd::std_specs::convert::TryFromSpecImpl;

verus! {

/// The two fields of a subscription form, as they arrived.
pub struct FormData {
    pub email: String,
    pub name: String,
}

/// Whether the conversion accepts a form with these fields.
pub open spec fn intake_accepts(email: Seq<char>, name: Seq<char>) -> bool {
    is_email_address(email) && is_valid_name(name)
}

/// The message of the first failure in a form that the conversion rejects: the
/// email is judged before the name.
pub open spec fn intake_failure(email: Seq<char>, name: Seq<char>) -> Seq<char> {
    if !is_email_address(email) {
        invalid_email_message(email)
    } else {
        invalid_name_message(name)
    }
}

/// The conversion as a function of the form. Texts are told apart by their
/// characters, not as values, so `try_from` pins its result in its own
/// contract and does not claim equality with this function.
impl TryFromSpecImpl<FormData> for NewSubscriber {
    open spec fn obeys_try_from_spec() -> bool {
        false
    }

    open spec fn try_from_spec(v: FormData) -> Result<Self, Self::Error> {
        if intake_accepts(v.email@, v.name@) {
            Ok(
                choose|subscriber: NewSubscriber|
                    #[trigger] subscriber.email@ == v.email@ && subscriber.name@ == v.name@,
            )
        } else {
            Err(
                choose|message: ValidationError| #[trigger]
                    message@ == intake_failure(v.email@, v.name@),
            )
        }
    }
}

impl TryFrom<FormData> for NewSubscriber {
    type Error = ValidationError;

    /// Validates the email, then the name; the first failure is the error.
    fn try_from(value: FormData) -> (res: Result<Self, Self::Error>)
        ensures
            res is Ok <==> intake_accepts(value.email@, value.name@),
            res matches Ok(subscriber) ==> subscriber.email@ == value.email@ && subscriber.name@
                == value.name@,
            res matches Err(message) ==> message@ == intake_failure(value.email@, value.name@),
    {
        let email = match SubscriberEmail::parse(value.email) {
            Ok(email) => email,
            Err(message) => { return Err(message); },
        };
        let name = match SubsciberName::parse(value.name) {
            Ok(name) => name,
            Err(message) => { return Err(message); },
        };
        Ok(NewSubscriber { email, name })
    }
}

/// A moment in UTC: whole seconds since the Unix epoch and the nanoseconds
/// into the second.
#[derive(Clone, Copy, Debug, PartialEq, Eq, Structural)]
pub struct Timestamp {
    pub seconds: i64,
    pub nanoseconds: u32,
}

impl Timestamp {
    /// The moment lies at or after the epoch, and the nanoseconds stay below
    /// one second.
    pub open spec fn is_clock_reading(self) -> bool {
        self.seconds >= 0 && self.nanoseconds < 1_000_000_000
    }
}

/// The bits that mark an identifier as a random one: version 4 in the
/// thirteenth hexadecimal digit, and the two variant bits `10` above the
/// seventeenth.
pub open spec fn is_random_id(id: u128) -> bool {
    id & 0x0000_0000_0000_f000_c000_0000_0000_0000 == 0x0000_0000_0000_4000_8000_0000_0000_0000
}

/// `Uuid::new_v4` of `uuid`, read with `Uuid::as_u128`. Which identifier comes
/// is left open; every one carries the version and variant bits of a random
/// UUID. The call panics where the system gives no random bytes.
#[verifier::external_body]
fn fresh_id() -> (id: u128)
    ensures
        is_random_id(id),
{
    uuid::Uuid::new_v4().as_u128()
}

/// `Utc::now` of `chrono`, read with `DateTime::timestamp` and
/// `DateTime::timestamp_subsec_nanos`. Which moment comes is left open; it is
/// taken from the system clock as a duration since the epoch, so it does not
/// lie before it. The call panics where the clock stands before the epoch.
#[verifier::external_body]
fn current_time() -> (now: Timestamp)
    ensures
        now.is_clock_reading(),
{
    let now = chrono::Utc::now();
    Timestamp { seconds: now.timestamp(), nanoseconds: now.timestamp_subsec_nanos() }
}

/// One row of the subscription table.
pub struct SubscriptionRecord {
    pub id: u128,
    pub name: String,
    pub email: String,
    pub subscribed_at: Timestamp,
}

/// What a row holds, as plain values.
pub struct RecordView {
    pub id: u128,
    pub name: Seq<char>,
    pub email: Seq<char>,
    pub subscribed_at: Timestamp,
}

impl View for SubscriptionRecord {
    type V = RecordView;

    open spec fn view(&self) -> RecordView {
        RecordView {
            id: self.id,
            name: self.name@,
            email: self.email@,
            subscribed_at: self.subscribed_at,
        }
    }
}

/// The row that stands for a subscriber under a given identifier and moment.
pub open spec fn row_of(email: Seq<char>, name: Seq<char>, id: u128, at: Timestamp) -> RecordView {
    RecordView { id, name, email, subscribed_at: at }
}

impl SubscriptionRecord {
    /// The row for `subscriber` under the identifier and the moment given.
    pub fn new(subscriber: &NewSubscriber, id: u128, subscribed_at: Timestamp) -> (record: Self)
        ensures
            record@ == row_of(subscriber.email@, subscriber.name@, id, subscribed_at),
            is_email_address(record.email@),
            is_valid_name(record.name@),
    {
        SubscriptionRecord {
            id,
            name: String::from_str(subscriber.name.as_ref()),
            email: String::from_str(subscriber.email.as_ref()),
            subscribed_at,
        }
    }
}

/// The row to insert for `subscriber`: its identifier is drawn and the clock is
/// read here, so neither comes from the caller, and two rows for one subscriber
/// need not agree in either.
pub fn new_record(subscriber: &NewSubscriber) -> (record: SubscriptionRecord)
    ensures
        record@ == row_of(
            subscriber.email@,
            subscriber.name@,
            record.id,
            record.subscribed_at,
        ),
        is_random_id(record.id),
        record.subscribed_at.is_clock_reading(),
{
    let id = fresh_id();
    let now = current_time();
    SubscriptionRecord::new(subscriber, id, now)
}

/// The one signal for a write that did not complete. Its cause stays with
/// whoever made the write.
#[derive(Clone, Copy, Debug, PartialEq, Eq, Structural)]
pub struct StorageError;

/// How far a subscription request has come.
#[derive(Clone, Copy, Debug, PartialEq, Eq, Structural)]
pub enum RequestState {
    /// The form is in hand and nothing was decided yet.
    Received,
    /// The form was accepted; the write is under way.
    Validated,
    /// The form was rejected.
    Rejected,
    /// The row was written.
    Stored,
    /// The write did not complete.
    StorageFailed,
}

/// What happens to a request from outside.
pub enum Event {
    /// The form was decoded.
    Submitted(FormData),
    /// The write came back.
    StoreFinished(Result<(), StorageError>),
}

/// What the handler asks for next.
pub enum Action {
    /// Write the row for this subscriber, and report how it went.
    Store(NewSubscriber),
    /// Answer the request; it is over.
    Respond(Outcome),
}

impl RequestState {
    /// The states in which a request is over.
    pub open spec fn is_final(self) -> bool {
        self == RequestState::Rejected || self == RequestState::Stored || self
            == RequestState::StorageFailed
    }

    /// The event that a state waits for: the form at first, the end of the
    /// write once the form was accepted, and nothing when the request is over.
    pub open spec fn expects(self, event: Event) -> bool {
        match self {
            RequestState::Received => event is Submitted,
            RequestState::Validated => event is StoreFinished,
            _ => false,
        }
    }

    /// The outcome owed in each final state; the others owe none yet.
    pub open spec fn owed(self) -> Option<Outcome> {
        match self {
            RequestState::Received => None,
            RequestState::Validated => None,
            RequestState::Rejected => Some(Outcome::ClientError),
            RequestState::Stored => Some(Outcome::Success),
            RequestState::StorageFailed => Some(Outcome::ServerError),
        }
    }

    /// Whether the state waits for `event`.
    pub fn awaits(&self, event: &Event) -> (expected: bool)
        ensures
            expected == self.expects(*event),
    {
        match self {
            RequestState::Received => match event {
                Event::Submitted(_) => true,
                Event::StoreFinished(_) => false,
            },
            RequestState::Validated => match event {
                Event::Submitted(_) => false,
                Event::StoreFinished(_) => true,
            },
            _ => false,
        }
    }

    /// The outcome that the state owes, if the request is over.
    pub fn outcome(&self) -> (outcome: Option<Outcome>)
        ensures
            outcome == self.owed(),
    {
        match self {
            RequestState::Received => None,
            RequestState::Validated => None,
            RequestState::Rejected => Some(Outcome::ClientError),
            RequestState::Stored => Some(Outcome::Success),
            RequestState::StorageFailed => Some(Outcome::ServerError),
        }
    }
}

/// The state that follows `state` on `event`. An event that the state does not
/// wait for changes nothing.
pub open spec fn next_state(state: RequestState, event: Event) -> RequestState {
    match (state, event) {
        (RequestState::Received, Event::Submitted(form)) => if intake_accepts(
            form.email@,
            form.name@,
        ) {
            RequestState::Validated
        } else {
            RequestState::Rejected
        },
        (RequestState::Validated, Event::StoreFinished(result)) => if result is Ok {
            RequestState::Stored
        } else {
            RequestState::StorageFailed
        },
        _ => state,
    }
}

/// One step of the handler. A rejected form is answered with a client error and
/// asks for no write; an accepted one asks for the write of that very email
/// and name. The end of the write is answered with success or a server error.
/// The handler judges nothing itself: the form by the conversion, the write by
/// its result.
pub fn step(state: RequestState, event: Event) -> (next: (RequestState, Action))
    requires
        state.expects(event),
    ensures
        next.0 == next_state(state, event),
        match next.1 {
            Action::Store(subscriber) => {
                &&& next.0 == RequestState::Validated
                &&& event matches Event::Submitted(form)
                &&& subscriber.email@ == form.email@
                &&& subscriber.name@ == form.name@
            },
            Action::Respond(outcome) => next.0.owed() == Some(outcome),
        },
{
    match event {
        Event::Submitted(form) => match NewSubscriber::try_from(form) {
            Ok(subscriber) => (RequestState::Validated, Action::Store(subscriber)),
            Err(_) => (RequestState::Rejected, Action::Respond(Outcome::ClientError)),
        },
        Event::StoreFinished(result) => match result {
            Ok(_) => (RequestState::Stored, Action::Respond(Outcome::Success)),
            Err(_) => (RequestState::StorageFailed, Action::Respond(Outcome::ServerError)),
        },
    }
}

/// A request that is over stays as it is: no event leads out of a final state,
/// and no final state waits for one.
pub proof fn lemma_final_states_stay(state: RequestState, event: Event)
    requires
        state.is_final(),
    ensures
        !state.expects(event),
        next_state(state, event) == state,
{
}

/// A state owes an outcome exactly when the request is over.
pub proof fn lemma_outcome_owed_when_over(state: RequestState)
    ensures
        state.owed() is Some <==> state.is_final(),
{
}

/// Whatever the form holds and however the write ends, a request comes from
/// `Received` to a final state: at once with a client error if the conversion
/// rejects the form, else through `Validated` to success if the write
/// succeeded and to a server error if it did not.
pub proof fn lemma_request_ends(form: FormData, stored: Result<(), StorageError>)
    ensures
        ({
            let first = next_state(RequestState::Received, Event::Submitted(form));
            let second = next_state(first, Event::StoreFinished(stored));
            if !intake_accepts(form.email@, form.name@) {
                first == RequestState::Rejected && first.owed() == Some(Outcome::ClientError)
            } else if stored is Ok {
                first == RequestState::Validated && second == RequestState::Stored
                    && second.owed() == Some(Outcome::Success)
            } else {
                first == RequestState::Validated && second == RequestState::StorageFailed
                    && second.owed() == Some(Outcome::ServerError)
            }
        }),
{
}

/// The row written for an accepted form holds the email and the name of the
/// form, letter for letter, whatever identifier and moment it gets.
pub proof fn lemma_row_keeps_fields(email: Seq<char>, name: Seq<char>, id: u128, at: Timestamp)
    requires
        intake_accepts(email, name),
    ensures
        row_of(email, name, id, at).email == email,
        row_of(email, name, id, at).name == name,
{
}

/// Nothing merges two submissions of one email and name: the rows written for
/// them differ as soon as their identifiers do.
pub proof fn lemma_rows_differ_by_id(
    email: Seq<char>,
    name: Seq<char>,
    first_id: u128,
    first_at: Timestamp,
    second_id: u128,
    second_at: Timestamp,
)
    requires
        first_id != second_id,
    ensures
        row_of(email, name, first_id, first_at) != row_of(email, name, second_id, second_at),
{
}

} // verus!
