use vstd::prelude::*;

verus! {

/// An HTTP status, by its numeric code.
#[derive(Clone, Copy, Debug, PartialEq, Eq, Structural)]
pub struct Status {
    pub code: u16,
}

impl Status {
    pub const OK: u16 = 200;

    pub const CREATED: u16 = 201;

    pub const NO_CONTENT: u16 = 204;

    pub const BAD_REQUEST: u16 = 400;

    pub const NOT_FOUND: u16 = 404;

    pub const CONFLICT: u16 = 409;

    pub const UNPROCESSABLE_ENTITY: u16 = 422;

    pub const INTERNAL_SERVER_ERROR: u16 = 500;

    pub fn new(code: u16) -> (r: Status)
        ensures
            r.code == code,
    {
        Status { code }
    }
}

} // verus!
