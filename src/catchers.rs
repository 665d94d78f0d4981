//! The responses for requests that no handler answered.
use vstd::prelude::*;

use crate::error::Error;
use crate::response::Response;

verus! {

/// A body that is not valid JSON.
pub fn bad_request() -> (r: Response<()>)
    ensures
        r is Failure,
        r->Failure_0 is BadRequest,
        r->Failure_0->BadRequest_0@ == "Request is malformed: expected valid JSON"@,
{
    Response::Failure(Error::BadRequest(String::from_str("Request is malformed: expected valid JSON")))
}

/// A path that no route matches; `uri` is the request's URI.
pub fn not_found(uri: String) -> (r: Response<()>)
    ensures
        r == Response::<()>::Failure(Error::UnknownRoute(uri)),
{
    Response::Failure(Error::UnknownRoute(uri))
}

/// A well-formed JSON body that does not fit the expected shape.
pub fn unprocessable_entity() -> (r: Response<()>)
    ensures
        r is Failure,
        r->Failure_0 is InvalidData,
        r->Failure_0->InvalidData_0@ == "JSON is well-formed but contains semantic errors"@,
{
    Response::Failure(Error::InvalidData(String::from_str("JSON is well-formed but contains semantic errors")))
}

} // verus!
