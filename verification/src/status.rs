//! The outcomes a request can have.

use vstd::prelude::*;

verus! {

/// How a request ended.
#[derive(Debug, Clone, Copy, PartialEq, Eq, Structural)]
pub enum Status {
    Success,
    Unauthorized,
    NotFound,
    InternalServerError,
    ServiceUnavailable,
}

impl Status {
    /// The number that stands for this outcome on the wire.
    pub open spec fn spec_code(self) -> u16 {
        match self {
            Status::Success => 200,
            Status::Unauthorized => 401,
            Status::NotFound => 404,
            Status::InternalServerError => 500,
            Status::ServiceUnavailable => 503,
        }
    }

    /// The number that stands for this outcome on the wire.
    #[verifier::when_used_as_spec(spec_code)]
    pub fn code(self) -> (code: u16)
        ensures
            code == self.spec_code(),
    {
        match self {
            Status::Success => 200,
            Status::Unauthorized => 401,
            Status::NotFound => 404,
            Status::InternalServerError => 500,
            Status::ServiceUnavailable => 503,
        }
    }
}

} // verus!
