//! A subscriber whose email and name have both passed validation.

use crate::domain::subscriber_email::SubscriberEmail;
use crate::domain::subscriber_name::SubsciberName;
use vstd::prelude::*;

verus! {

/// An email and a name that are valid by construction.
pub struct NewSubscriber {
    pub email: SubscriberEmail,
    pub name: SubsciberName,
}

} // verus!
