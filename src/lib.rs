//! Failure taxonomy of a push-notification delivery client.

pub mod error;
pub mod response;

pub use error::Error;
pub use response::{ErrorBody, Response};
