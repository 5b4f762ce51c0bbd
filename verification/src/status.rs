//! The statuses that requests are answered with.
use vstd::prelude::*;

verus! {

/// A status of a reply.
#[derive(Clone, Copy, Debug, PartialEq, Eq, Structural)]
pub enum StatusCode {
    Success,
    Unauthorized,
    NotFound,
    Conflict,
    InternalServerError,
}

impl StatusCode {
    /// The number of a status on the wire.
    pub open spec fn number(self) -> u16 {
        match self {
            StatusCode::Success => 200,
            StatusCode::Unauthorized => 401,
            StatusCode::NotFound => 404,
            StatusCode::Conflict => 409,
            StatusCode::InternalServerError => 500,
        }
    }

    /// The number of a status on the wire.
    pub fn as_u16(&self) -> (number: u16)
        ensures
            number == self.number(),
            *self == StatusCode::Success ==> number == 200,
            *self == StatusCode::Unauthorized ==> number == 401,
            *self == StatusCode::NotFound ==> number == 404,
            *self == StatusCode::Conflict ==> number == 409,
            *self == StatusCode::InternalServerError ==> number == 500,
    {
        match self {
            StatusCode::Success => 200,
            StatusCode::Unauthorized => 401,
            StatusCode::NotFound => 404,
            StatusCode::Conflict => 409,
            StatusCode::InternalServerError => 500,
        }
    }
}

/// No two statuses have the same number. The number of an error is 400 or more, and
/// 500 or more exactly where the fault is the server's.
pub proof fn statuses_are_told_apart(a: StatusCode, b: StatusCode)
    ensures
        a.number() == b.number() ==> a == b,
        (a.number() < 400) == (a == StatusCode::Success),
        (a.number() >= 500) == (a == StatusCode::InternalServerError),
{
}

} // verus!
