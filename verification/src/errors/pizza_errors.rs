//! Failures of a request, and their status code and body.

use vstd::prelude::*;
use vstd::std_specs::convert::FromSpecImpl;

verus! {

/// Why a request failed.
#[derive(Debug, Clone, Copy, PartialEq, Eq, Structural)]
pub enum PizzaError {
    /// A listing came back absent or empty.
    NoPizzasFound,
    /// A create request was invalid, or the insert failed.
    PizzaCreationFailure,
    /// The target of a get or an update is not there.
    NoSuchPizzaFound,
    /// The target of a delete is not there, or the request was invalid.
    QuerryError,
}

/// Body of a failed request: a short status word and a message.
#[derive(Debug, Clone, Copy, PartialEq, Eq)]
pub struct ErrorResponse {
    pub status: &'static str,
    pub message: &'static str,
}

/// A failure as the HTTP layer sends it: the status code, then the body.
pub type HandlerError = (u16, ErrorResponse);

impl PizzaError {
    /// The HTTP status code of the failure.
    pub open spec fn spec_status_code(self) -> u16 {
        match self {
            PizzaError::NoPizzasFound => 404,
            PizzaError::PizzaCreationFailure => 500,
            PizzaError::NoSuchPizzaFound => 404,
            PizzaError::QuerryError => 404,
        }
    }

    /// The status word and the message of the failure.
    pub open spec fn spec_body(self) -> ErrorResponse {
        match self {
            PizzaError::NoPizzasFound => ErrorResponse {
                status: "......",
                message: "No pizza orders!!!",
            },
            PizzaError::PizzaCreationFailure => ErrorResponse {
                status: "error",
                message: "There's an error with the server",
            },
            PizzaError::NoSuchPizzaFound => ErrorResponse {
                status: "not found",
                message: "That kind of pizza is not found",
            },
            PizzaError::QuerryError => ErrorResponse {
                status: "not found",
                message: "No matching ID in the database",
            },
        }
    }

    #[verifier::when_used_as_spec(spec_status_code)]
    pub fn status_code(self) -> (code: u16)
        ensures
            code == self.spec_status_code(),
    {
        match self {
            PizzaError::NoPizzasFound => 404,
            PizzaError::PizzaCreationFailure => 500,
            PizzaError::NoSuchPizzaFound => 404,
            PizzaError::QuerryError => 404,
        }
    }

    #[verifier::when_used_as_spec(spec_body)]
    pub fn body(self) -> (body: ErrorResponse)
        ensures
            body == self.spec_body(),
    {
        match self {
            PizzaError::NoPizzasFound => ErrorResponse {
                status: "......",
                message: "No pizza orders!!!",
            },
            PizzaError::PizzaCreationFailure => ErrorResponse {
                status: "error",
                message: "There's an error with the server",
            },
            PizzaError::NoSuchPizzaFound => ErrorResponse {
                status: "not found",
                message: "That kind of pizza is not found",
            },
            PizzaError::QuerryError => ErrorResponse {
                status: "not found",
                message: "No matching ID in the database",
            },
        }
    }
}

impl From<PizzaError> for (u16, ErrorResponse) {
    fn from(value: PizzaError) -> (sent: Self) {
        (value.status_code(), value.body())
    }
}

impl FromSpecImpl<PizzaError> for (u16, ErrorResponse) {
    open spec fn obeys_from_spec() -> bool {
        true
    }

    open spec fn from_spec(value: PizzaError) -> Self {
        (value.spec_status_code(), value.spec_body())
    }
}

} // verus!
