//! The closed error type of the client.

use crate::response::Response;
use hyper::Error as TransportError;
use serde_json::Error as JsonError;
use vstd::prelude::*;
use vstd::string::to_string_from_display_ensures;

verus! {

/// A JSON encode or decode failure of serde_json.
#[verifier::external_type_specification]
#[verifier::external_body]
pub struct ExJsonError(JsonError);

/// A failure of the transport layer, from hyper.
#[verifier::external_type_specification]
#[verifier::external_body]
pub struct ExTransportError(TransportError);

/// The queue of errors that OpenSSL reported while signing.
#[verifier::external_type_specification]
#[verifier::external_body]
pub struct ExErrorStack(openssl::error::ErrorStack);

/// A failure to read from storage.
#[verifier::external_type_specification]
#[verifier::external_body]
pub struct ExIoError(std::io::Error);

/// Everything that can go wrong while preparing, signing, sending and
/// interpreting a notification.
#[derive(Debug)]
pub enum Error {
    /// User request or gateway response JSON data was faulty.
    SerializeError,
    /// A problem connecting to the gateway.
    ConnectionError,
    /// The gateway did not answer within the time the caller allowed.
    TimeoutError,
    /// Couldn't generate a token with the given key.
    SignerError(String),
    /// The gateway refused the notification; holds its response.
    ResponseError(Response),
    /// Invalid option values given for the notification.
    InvalidOptions(String),
    /// The TLS connection failed.
    TlsError(String),
    /// Error reading the certificate or private key.
    ReadError(String),
}

/// The category text of each kind of error, independent of what it carries.
pub open spec fn description_of(e: Error) -> Seq<char> {
    match e {
        Error::SerializeError => "Error serializing to JSON"@,
        Error::ConnectionError => "Error connecting to APNs"@,
        Error::SignerError(_) => "Error creating a signature"@,
        Error::ResponseError(_) => "Notification was not accepted by the gateway"@,
        Error::InvalidOptions(_) => "Invalid options for APNs payload"@,
        Error::TlsError(_) => "Error in creating a TLS connection"@,
        Error::ReadError(_) => "Error in reading a certificate file"@,
        Error::TimeoutError => "Timeout in sending a push notification"@,
    }
}

/// The debug text of a string: the string in double quotes, with quotes,
/// backslashes and control characters escaped.
pub uninterp spec fn debug_quoted_of(s: Seq<char>) -> Seq<char>;

/// Whether every character is an ASCII letter or digit.
pub open spec fn is_ascii_alphanumeric(s: Seq<char>) -> bool {
    forall|i: int|
        0 <= i < s.len() ==> (('a' <= #[trigger] s[i] <= 'z') || ('A' <= s[i] <= 'Z') || ('0'
            <= s[i] <= '9'))
}

/// Relies on std's `Debug for str`: the string in double quotes, each
/// character escaped as `char::escape_debug` does, which leaves ASCII letters
/// and digits as they are.
#[verifier::external_body]
fn debug_quoted(s: &str) -> (r: String)
    ensures
        r@ == debug_quoted_of(s@),
        is_ascii_alphanumeric(s@) ==> r@ == "\""@ + s@ + "\""@,
{
    format!("{:?}", s)
}

/// The text of an error: its category text, followed for a refusal that
/// carries a body by the debug text of the gateway's reason.
pub open spec fn rendered(e: Error) -> Seq<char> {
    match e {
        Error::ResponseError(Response { error: Some(body), .. }) => description_of(e)
            + " (reason: "@ + debug_quoted_of(body.reason@) + ")"@,
        _ => description_of(e),
    }
}

impl Error {
    /// Short category text, one per kind of error.
    pub fn description(&self) -> (r: &'static str)
        ensures
            r@ == description_of(*self),
    {
        match self {
            Error::SerializeError => "Error serializing to JSON",
            Error::ConnectionError => "Error connecting to APNs",
            Error::SignerError(_) => "Error creating a signature",
            Error::ResponseError(_) => "Notification was not accepted by the gateway",
            Error::InvalidOptions(_) => "Invalid options for APNs payload",
            Error::TlsError(_) => "Error in creating a TLS connection",
            Error::ReadError(_) => "Error in reading a certificate file",
            Error::TimeoutError => "Timeout in sending a push notification",
        }
    }

    /// Renders the error as text, for logs and for the people who read them.
    pub fn to_string(&self) -> (r: String)
        ensures
            r@ == rendered(*self),
    {
        let mut text = String::from_str(self.description());
        if let Error::ResponseError(Response { error: Some(body), .. }) = self {
            text.append(" (reason: ");
            let quoted = debug_quoted(body.reason.as_str());
            text.append(quoted.as_str());
            text.append(")");
        }
        text
    }
}

impl From<JsonError> for Error {
    /// Any JSON failure is a serialization error; its detail is dropped.
    fn from(_e: JsonError) -> (r: Error) {
        Error::SerializeError
    }
}

impl vstd::std_specs::convert::FromSpecImpl<JsonError> for Error {
    open spec fn obeys_from_spec() -> bool {
        true
    }

    open spec fn from_spec(e: JsonError) -> Error {
        Error::SerializeError
    }
}

impl From<TransportError> for Error {
    /// Any transport failure is a connection error; its detail is dropped.
    fn from(_e: TransportError) -> (r: Error) {
        Error::ConnectionError
    }
}

impl vstd::std_specs::convert::FromSpecImpl<TransportError> for Error {
    open spec fn obeys_from_spec() -> bool {
        true
    }

    open spec fn from_spec(e: TransportError) -> Error {
        Error::ConnectionError
    }
}

impl From<openssl::error::ErrorStack> for Error {
    /// A signing failure keeps OpenSSL's text of the error stack.
    fn from(e: openssl::error::ErrorStack) -> (r: Error)
        ensures
            r matches Error::SignerError(message) && to_string_from_display_ensures(&e, message),
    {
        Error::SignerError(e.to_string())
    }
}

impl vstd::std_specs::convert::FromSpecImpl<openssl::error::ErrorStack> for Error {
    /// OpenSSL's text of a stack depends on the library it was built against,
    /// so the result is stated on `from` itself rather than as a function here.
    open spec fn obeys_from_spec() -> bool {
        false
    }

    open spec fn from_spec(e: openssl::error::ErrorStack) -> Error {
        arbitrary()
    }
}

impl From<std::io::Error> for Error {
    /// A failure to read a key or certificate keeps the I/O error's text.
    fn from(e: std::io::Error) -> (r: Error)
        ensures
            r matches Error::ReadError(message) && to_string_from_display_ensures(&e, message),
    {
        Error::ReadError(e.to_string())
    }
}

impl vstd::std_specs::convert::FromSpecImpl<std::io::Error> for Error {
    /// The text of an I/O error can come from the operating system, so the
    /// result is stated on `from` itself rather than as a function here.
    open spec fn obeys_from_spec() -> bool {
        false
    }

    open spec fn from_spec(e: std::io::Error) -> Error {
        arbitrary()
    }
}

/// Whether two errors are of the same kind, whatever they carry.
pub open spec fn same_kind(a: Error, b: Error) -> bool {
    match (a, b) {
        (Error::SerializeError, Error::SerializeError) => true,
        (Error::ConnectionError, Error::ConnectionError) => true,
        (Error::TimeoutError, Error::TimeoutError) => true,
        (Error::SignerError(_), Error::SignerError(_)) => true,
        (Error::ResponseError(_), Error::ResponseError(_)) => true,
        (Error::InvalidOptions(_), Error::InvalidOptions(_)) => true,
        (Error::TlsError(_), Error::TlsError(_)) => true,
        (Error::ReadError(_), Error::ReadError(_)) => true,
        _ => false,
    }
}

/// Rendering depends on the error alone: equal errors render to equal text
/// and have equal category text.
pub proof fn lemma_rendering_deterministic(a: Error, b: Error)
    requires
        a == b,
    ensures
        rendered(a) == rendered(b),
        description_of(a) == description_of(b),
{
}

/// The category text depends on the kind of error only: two refusals with
/// different reasons, or two signing failures with different messages, share it.
pub proof fn lemma_description_by_kind(a: Error, b: Error)
    requires
        same_kind(a, b),
    ensures
        description_of(a) == description_of(b),
{
}

/// Every JSON failure, whatever it says, becomes the same serialization error.
pub proof fn lemma_json_detail_dropped(a: JsonError, b: JsonError)
    ensures
        <Error as vstd::std_specs::convert::FromSpec<JsonError>>::obeys_from_spec(),
        <Error as vstd::std_specs::convert::FromSpec<JsonError>>::from_spec(a) == Error::SerializeError,
        <Error as vstd::std_specs::convert::FromSpec<JsonError>>::from_spec(a)
            == <Error as vstd::std_specs::convert::FromSpec<JsonError>>::from_spec(b),
{
}

/// Every transport failure, whatever its cause, becomes the same connection error.
pub proof fn lemma_transport_detail_dropped(a: TransportError, b: TransportError)
    ensures
        <Error as vstd::std_specs::convert::FromSpec<TransportError>>::obeys_from_spec(),
        <Error as vstd::std_specs::convert::FromSpec<TransportError>>::from_spec(a)
            == Error::ConnectionError,
        <Error as vstd::std_specs::convert::FromSpec<TransportError>>::from_spec(a)
            == <Error as vstd::std_specs::convert::FromSpec<TransportError>>::from_spec(b),
{
}

} // verus!
