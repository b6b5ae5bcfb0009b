//! The failure classes that a request can end in.

use vstd::prelude::*;

verus! {

/// How a request that did not succeed is reported to its caller.
#[derive(Clone, Copy, Debug, PartialEq, Eq, Structural)]
pub enum Status {
    /// The request is malformed or names something that is taken.
    BadRequest,
    /// The caller is not known.
    Unauthorized,
    /// The caller is known and may not do this.
    Forbidden,
    /// What the request names is absent, or is not the caller's to see.
    NotFound,
    /// A collaborator failed while the request was served.
    InternalServerError,
    /// The service cannot reach its store.
    ServiceUnavailable,
}

impl DeepView for Status {
    type V = Status;

    open spec fn deep_view(&self) -> Status {
        *self
    }
}

impl View for Status {
    type V = Status;

    open spec fn view(&self) -> Status {
        *self
    }
}

impl Status {
    /// The numeric code of a status.
    pub open spec fn spec_code(self) -> int {
        match self {
            Status::BadRequest => 400,
            Status::Unauthorized => 401,
            Status::Forbidden => 403,
            Status::NotFound => 404,
            Status::InternalServerError => 500,
            Status::ServiceUnavailable => 503,
        }
    }

    /// The numeric code under which the status goes over the wire.
    pub fn code(self) -> (code: u16)
        ensures
            code == self.spec_code(),
    {
        match self {
            Status::BadRequest => 400,
            Status::Unauthorized => 401,
            Status::Forbidden => 403,
            Status::NotFound => 404,
            Status::InternalServerError => 500,
            Status::ServiceUnavailable => 503,
        }
    }
}

} // verus!
