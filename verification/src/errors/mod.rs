//! The four named failures and what each becomes on the wire.

pub mod pizza_errors;

pub use pizza_errors::{ErrorResponse, HandlerError, PizzaError};
