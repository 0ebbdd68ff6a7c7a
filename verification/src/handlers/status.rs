//! The HTTP status codes that the handlers answer with.
use vstd::prelude::*;

verus! {

#[allow(non_camel_case_types)]
#[derive(Debug, Clone, Copy, PartialEq, Eq, Structural)]
pub enum StatusCode {
    OK,
    CREATED,
    BAD_REQUEST,
    UNAUTHORIZED,
    INTERNAL_SERVER_ERROR,
}

pub open spec fn status_number(s: StatusCode) -> u16 {
    match s {
        StatusCode::OK => 200,
        StatusCode::CREATED => 201,
        StatusCode::BAD_REQUEST => 400,
        StatusCode::UNAUTHORIZED => 401,
        StatusCode::INTERNAL_SERVER_ERROR => 500,
    }
}

impl StatusCode {
    /// The status code's number.
    pub fn as_u16(&self) -> (n: u16)
        ensures
            n == status_number(*self),
    {
        match self {
            StatusCode::OK => 200,
            StatusCode::CREATED => 201,
            StatusCode::BAD_REQUEST => 400,
            StatusCode::UNAUTHORIZED => 401,
            StatusCode::INTERNAL_SERVER_ERROR => 500,
        }
    }
}

} // verus!
