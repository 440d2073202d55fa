//! The answers of the service, reduced to what a caller may observe.

use vstd::prelude::*;

verus! {

/// The class of status that a request ends in. It carries no detail of what
/// went wrong.
#[derive(Clone, Copy, Debug, PartialEq, Eq, Structural)]
pub enum Outcome {
    Success,
    ClientError,
    ServerError,
}

/// A status code and a body.
pub struct Response {
    pub status: u16,
    pub body: String,
}

impl Outcome {
    /// The status code that stands for each outcome.
    pub open spec fn code(self) -> u16 {
        match self {
            Outcome::Success => 200,
            Outcome::ClientError => 400,
            Outcome::ServerError => 500,
        }
    }

    /// The HTTP status code of the outcome.
    pub fn status_code(&self) -> (status: u16)
        ensures
            status == self.code(),
    {
        match self {
            Outcome::Success => 200,
            Outcome::ClientError => 400,
            Outcome::ServerError => 500,
        }
    }

    /// The response for the outcome: its status code, and never a body.
    pub fn response(&self) -> (response: Response)
        ensures
            response.status == self.code(),
            response.body@ == Seq::<char>::empty(),
    {
        Response { status: self.status_code(), body: String::new() }
    }
}

} // verus!
