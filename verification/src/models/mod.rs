//! Record and request-body shapes, with their field rules.

pub mod ident;
pub mod pizza;
pub mod rules;

pub use pizza::{BuyPizzaRequest, DeletePizza, Pizza, PizzaView, UpdatePizza, Violation};
