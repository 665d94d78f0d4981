use vstd::prelude::*;

use crate::error::{message_of, status_code_of, Error};
use crate::status::Status;

verus! {

/// The outcome of a request: a payload with the status it is sent with, or
/// an error.
pub enum Response<T> {
    Success { data: T, status: Status },
    Failure(Error),
}

/// The body of a failure: the error's message and its numeric status.
#[derive(Clone, Debug, PartialEq, Eq)]
pub struct OpaqueError {
    pub error: String,
    pub code: u16,
}

/// What is sent back: `{"data": ...}` for a success, `{"error", "code"}`
/// for a failure.
pub enum Envelope<T> {
    Data(T),
    Error(OpaqueError),
}

impl OpaqueError {
    /// The body that reports an error.
    pub fn from_error(e: &Error) -> (r: OpaqueError)
        ensures
            r.error@ == message_of(*e),
            r.code == status_code_of(*e),
    {
        let status = e.get_http_status();
        OpaqueError { error: e.message(), code: status.code }
    }
}

impl<T> Response<T> {
    /// The status line and body of this response: a success keeps its own
    /// status and wraps its payload; a failure takes the status of its error
    /// and reports it.
    pub fn into_envelope(self) -> (r: (Status, Envelope<T>))
        ensures
            match self {
                Response::Success { data, status } => r.0 == status && r.1 == Envelope::Data(data),
                Response::Failure(e) => {
                    &&& r.0.code == status_code_of(e)
                    &&& r.1 is Error
                    &&& r.1->Error_0.error@ == message_of(e)
                    &&& r.1->Error_0.code == status_code_of(e)
                },
            },
    {
        match self {
            Response::Success { data, status } => (status, Envelope::Data(data)),
            Response::Failure(e) => {
                let status = e.get_http_status();
                (status, Envelope::Error(OpaqueError::from_error(&e)))
            },
        }
    }
}

/// Turns the outcome of an operation into a response, sent with the given
/// status when it succeeded.
pub trait IntoResponse<T>: Sized {
    spec fn response_spec(self, status: Status) -> Response<T>;

    fn into_response(self, status: Status) -> (r: Response<T>)
        ensures
            r == self.response_spec(status),
    ;
}

impl<T> IntoResponse<T> for Result<T, Error> {
    open spec fn response_spec(self, status: Status) -> Response<T> {
        match self {
            Ok(data) => Response::Success { data, status },
            Err(e) => Response::Failure(e),
        }
    }

    fn into_response(self, status: Status) -> (r: Response<T>) {
        match self {
            Ok(data) => Response::Success { data, status },
            Err(e) => Response::Failure(e),
        }
    }
}

} // verus!
