//! Subscription intake: validated domain values, the conversion from raw form
//! fields to a trusted subscriber, and the decisions of the request handler.

pub mod configuration;
pub mod domain;
pub mod routes;
pub mod startup;
