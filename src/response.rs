//! The structured outcome that the gateway returns for a notification.

use crate::error::Error;
use vstd::prelude::*;

verus! {

/// Machine-readable reason the gateway gives for refusing a notification.
#[derive(Debug)]
pub struct ErrorBody {
    /// The gateway's reason, such as `BadDeviceToken`.
    pub reason: String,
    /// When the gateway last knew the device token to be valid, if it says.
    pub timestamp: Option<u64>,
}

/// The gateway's answer to one notification.
#[derive(Debug)]
pub struct Response {
    /// The body the gateway sent with a refusal, if any.
    pub error: Option<ErrorBody>,
    /// The identifier the gateway gave the notification, if any.
    pub apns_id: Option<String>,
    /// The HTTP status code.
    pub code: u16,
}

/// The status code of a notification that the gateway accepted.
pub const STATUS_OK: u16 = 200;

impl Response {
    /// Whether the gateway accepted the notification.
    pub open spec fn accepted(&self) -> bool {
        self.code == STATUS_OK
    }

    /// Turns the gateway's answer into the outcome of a send: the response
    /// itself when the gateway accepted the notification, and otherwise a
    /// refusal that keeps the response, reason and identifiers included.
    pub fn into_result(self) -> (r: Result<Response, Error>)
        ensures
            self.accepted() ==> r == Ok::<Response, Error>(self),
            !self.accepted() ==> r == Err::<Response, Error>(Error::ResponseError(self)),
    {
        if self.code == STATUS_OK {
            Ok(self)
        } else {
            Err(Error::ResponseError(self))
        }
    }
}

} // verus!
