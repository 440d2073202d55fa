//! Domain values that exist only in validated form.

pub mod new_subscriber;
pub mod subscriber_email;
pub mod subscriber_name;

pub use new_subscriber::NewSubscriber;
pub use subscriber_email::SubscriberEmail;
pub use subscriber_name::SubsciberName;
use vstd::prelude::*;

verus! {

/// Why a raw value was not accepted: a message that names the value.
pub type ValidationError = String;

} // verus!
