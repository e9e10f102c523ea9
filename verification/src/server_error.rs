//! The errors that handlers answer with, and how they are replied.

use vstd::prelude::*;

verus! {

pub const BAD_REQUEST: u16 = 400;

pub const NOT_FOUND: u16 = 404;

pub const REQUEST_TIMEOUT: u16 = 408;

pub const INTERNAL_SERVER_ERROR: u16 = 500;

pub const SERVICE_UNAVAILABLE: u16 = 503;

/// An error that a request handler answers with: an HTTP status code and a
/// message.
pub struct ServerError {
    pub status: u16,
    pub message: String,
}

/// What goes back to the client for a `ServerError`.
pub enum ErrorReply {
    /// The status alone, with no body.
    StatusOnly(u16),
    /// The status with a JSON body `{"message": ...}`.
    WithMessage(u16, String),
}

/// Why the middleware stack rejected a request.
pub enum ServiceFailure {
    /// The request took longer than allowed.
    TimedOut,
    /// Too many requests were in flight.
    Overloaded,
    /// Anything else, with its description.
    Other(String),
}

impl ServerError {
    pub fn new(status: u16, message: String) -> (r: Self)
        ensures
            r.status == status,
            r.message == message,
    {
        ServerError { status, message }
    }

    /// Any other error that reaches a handler is an internal error.
    pub fn internal(message: String) -> (r: Self)
        ensures
            r.status == INTERNAL_SERVER_ERROR,
            r.message == message,
    {
        ServerError { status: INTERNAL_SERVER_ERROR, message }
    }

    /// The reply: an internal error shows its status only, so that nothing
    /// of the server's inner workings leaks; any other error carries its
    /// message.
    pub fn reply(&self) -> (r: ErrorReply)
        ensures
            self.status == INTERNAL_SERVER_ERROR ==> r == ErrorReply::StatusOnly(self.status),
            self.status != INTERNAL_SERVER_ERROR ==> (r matches ErrorReply::WithMessage(s, m)
                && s == self.status && m@ == self.message@),
    {
        if self.status == INTERNAL_SERVER_ERROR {
            ErrorReply::StatusOnly(self.status)
        } else {
            ErrorReply::WithMessage(self.status, self.message.clone())
        }
    }
}

/// The error the static site answers a rejected request with: a timeout and
/// an overload have their own status and message; anything else is an
/// internal error that names its cause.
pub fn site_failure_error(failure: ServiceFailure) -> (r: ServerError)
    ensures
        failure is TimedOut ==> r.status == REQUEST_TIMEOUT && r.message@ == "request timed out"@,
        failure is Overloaded ==> r.status == SERVICE_UNAVAILABLE && r.message@
            == "service is overloaded, try again later"@,
        failure matches ServiceFailure::Other(e) ==> r.status == INTERNAL_SERVER_ERROR
            && r.message@ == "unhandled internal error: "@ + e@,
{
    match failure {
        ServiceFailure::TimedOut => ServerError::new(
            REQUEST_TIMEOUT,
            String::from_str("request timed out"),
        ),
        ServiceFailure::Overloaded => ServerError::new(
            SERVICE_UNAVAILABLE,
            String::from_str("service is overloaded, try again later"),
        ),
        ServiceFailure::Other(e) => {
            let mut m = String::from_str("unhandled internal error: ");
            m.append(e.as_str());
            ServerError::internal(m)
        },
    }
}

/// The status the file and blog servers answer a rejected request with: an
/// overload is reported as such; anything else is an internal error.
pub fn middleware_failure_status(failure: &ServiceFailure) -> (r: u16)
    ensures
        r == if *failure is Overloaded {
            SERVICE_UNAVAILABLE
        } else {
            INTERNAL_SERVER_ERROR
        },
{
    match failure {
        ServiceFailure::Overloaded => SERVICE_UNAVAILABLE,
        _ => INTERNAL_SERVER_ERROR,
    }
}

} // verus!
