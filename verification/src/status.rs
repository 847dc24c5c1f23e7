//! The status classes with which a webhook delivery is answered.

use vstd::prelude::*;

verus! {

/// HTTP-equivalent status of a handled delivery.
#[derive(Clone, Copy, Debug, PartialEq, Eq, Structural)]
pub enum Status {
    NoContent,
    BadRequest,
    Unauthorized,
    Forbidden,
    PayloadTooLarge,
    UnprocessableEntity,
    InternalServerError,
    NotImplemented,
    ServiceUnavailable,
}

impl Status {
    /// The numeric status code.
    pub open spec fn spec_code(self) -> u16 {
        match self {
            Status::NoContent => 204,
            Status::BadRequest => 400,
            Status::Unauthorized => 401,
            Status::Forbidden => 403,
            Status::PayloadTooLarge => 413,
            Status::UnprocessableEntity => 422,
            Status::InternalServerError => 500,
            Status::NotImplemented => 501,
            Status::ServiceUnavailable => 503,
        }
    }

    #[verifier::when_used_as_spec(spec_code)]
    pub fn code(self) -> (code: u16)
        ensures
            code == self.spec_code(),
    {
        match self {
            Status::NoContent => 204,
            Status::BadRequest => 400,
            Status::Unauthorized => 401,
            Status::Forbidden => 403,
            Status::PayloadTooLarge => 413,
            Status::UnprocessableEntity => 422,
            Status::InternalServerError => 500,
            Status::NotImplemented => 501,
            Status::ServiceUnavailable => 503,
        }
    }

    /// Whether the status turns the sender away: no valid signature came
    /// with the request.
    pub open spec fn spec_is_unauthorized_class(self) -> bool {
        self == Status::Unauthorized || self == Status::Forbidden
    }

    #[verifier::when_used_as_spec(spec_is_unauthorized_class)]
    pub fn is_unauthorized_class(self) -> (b: bool)
        ensures
            b == self.spec_is_unauthorized_class(),
    {
        match self {
            Status::Unauthorized => true,
            Status::Forbidden => true,
            _ => false,
        }
    }

    /// Whether the status reports a failure of the client (4xx).
    pub open spec fn spec_is_client_error(self) -> bool {
        400 <= self.spec_code() < 500
    }

    #[verifier::when_used_as_spec(spec_is_client_error)]
    pub fn is_client_error(self) -> (b: bool)
        ensures
            b == self.spec_is_client_error(),
    {
        let code = self.code();
        400 <= code && code < 500
    }
}

} // verus!
