//! What the service answers to each request.

pub mod health_check;
pub mod response;
pub mod subscriptions;

pub use health_check::health_check;
pub use response::{Outcome, Response};
pub use subscriptions::{new_record, step, FormData};
