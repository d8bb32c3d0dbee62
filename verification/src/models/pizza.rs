//! The order record, the three request bodies, and the rules that the bodies
//! are held to before anything is sent to the store.

use vstd::prelude::*;
use super::rules::{large_enough, long_enough, validate_min, validate_min_length};

verus! {

/// A field rule that a request body broke.
#[derive(Debug, Clone, Copy, PartialEq, Eq, Structural)]
pub enum Violation {
    /// The pizza name is empty.
    PizzaNameRequired,
    /// The amount of a create request is below one.
    AmountTooSmall,
    /// The new amount of an update request is below one.
    NewAmountTooSmall,
    /// The id of a delete request is empty.
    UuidNeeded,
}

impl Violation {
    /// The message that goes with the broken rule, where it has one.
    pub open spec fn spec_message(self) -> Option<&'static str> {
        match self {
            Violation::PizzaNameRequired => Some("pizza name required"),
            Violation::AmountTooSmall => None,
            Violation::NewAmountTooSmall => None,
            Violation::UuidNeeded => Some("uuid needed"),
        }
    }

    /// The message that goes with the broken rule, where it has one.
    pub fn message(&self) -> (text: Option<&'static str>)
        ensures
            text == self.spec_message(),
    {
        match self {
            Violation::PizzaNameRequired => Some("pizza name required"),
            Violation::AmountTooSmall => None,
            Violation::NewAmountTooSmall => None,
            Violation::UuidNeeded => Some("uuid needed"),
        }
    }
}

/// One persisted pizza order.
#[derive(Debug, Clone, PartialEq, Eq)]
pub struct Pizza {
    pub uuid: String,
    pub pizza_name: String,
    pub amount: u32,
}

/// The mathematical value of a [`Pizza`].
pub struct PizzaView {
    pub uuid: Seq<char>,
    pub pizza_name: Seq<char>,
    pub amount: u32,
}

impl View for Pizza {
    type V = PizzaView;

    open spec fn view(&self) -> PizzaView {
        PizzaView { uuid: self.uuid@, pizza_name: self.pizza_name@, amount: self.amount }
    }
}

impl DeepView for Pizza {
    type V = PizzaView;

    open spec fn deep_view(&self) -> PizzaView {
        self@
    }
}

impl PizzaView {
    /// What every persisted record satisfies: a non-empty id, a non-empty
    /// name and a quantity of at least one.
    pub open spec fn well_formed(self) -> bool {
        &&& self.uuid.len() >= 1
        &&& self.pizza_name.len() >= 1
        &&& self.amount >= 1
    }
}

impl Pizza {
    /// An order with the given id, name and amount, taken as they are.
    pub fn new(uuid: String, pizza_name: String, amount: u32) -> (pizza: Self)
        ensures
            pizza.uuid == uuid,
            pizza.pizza_name == pizza_name,
            pizza.amount == amount,
    {
        Self { uuid, pizza_name, amount }
    }
}

/// Body of a create request.
#[derive(Debug, Clone, PartialEq, Eq)]
pub struct BuyPizzaRequest {
    pub pizza_name: String,
    pub amount: u32,
}

impl BuyPizzaRequest {
    /// The body names a pizza and asks for at least one.
    pub open spec fn is_valid(&self) -> bool {
        long_enough(self.pizza_name@, 1) && large_enough(self.amount, 1)
    }

    /// The rules that the body breaks, the name's first.
    pub open spec fn violations(&self) -> Seq<Violation> {
        let name = if long_enough(self.pizza_name@, 1) {
            Seq::<Violation>::empty()
        } else {
            seq![Violation::PizzaNameRequired]
        };
        let amount = if large_enough(self.amount, 1) {
            Seq::<Violation>::empty()
        } else {
            seq![Violation::AmountTooSmall]
        };
        name + amount
    }

    /// Checks both fields and reports every rule that is broken.
    pub fn validate(&self) -> (checked: Result<(), Vec<Violation>>)
        ensures
            checked is Ok <==> self.is_valid(),
            checked matches Err(broken) ==> broken@ == self.violations() && broken@.len() > 0,
    {
        let mut broken: Vec<Violation> = Vec::new();
        if !validate_min_length(&self.pizza_name, 1) {
            broken.push(Violation::PizzaNameRequired);
        }
        if !validate_min(self.amount, 1) {
            broken.push(Violation::AmountTooSmall);
        }
        if broken.len() == 0 {
            Ok(())
        } else {
            assert(broken@ =~= self.violations());
            Err(broken)
        }
    }
}

/// Body of an update request.
#[derive(Debug, Clone, PartialEq, Eq)]
pub struct UpdatePizza {
    pub new_amount: u32,
}

impl UpdatePizza {
    /// The body asks for at least one.
    pub open spec fn is_valid(&self) -> bool {
        large_enough(self.new_amount, 1)
    }

    /// The rules that the body breaks.
    pub open spec fn violations(&self) -> Seq<Violation> {
        if large_enough(self.new_amount, 1) {
            Seq::<Violation>::empty()
        } else {
            seq![Violation::NewAmountTooSmall]
        }
    }

    /// Checks the new amount.
    pub fn validate(&self) -> (checked: Result<(), Vec<Violation>>)
        ensures
            checked is Ok <==> self.is_valid(),
            checked matches Err(broken) ==> broken@ == self.violations() && broken@.len() > 0,
    {
        if validate_min(self.new_amount, 1) {
            Ok(())
        } else {
            let mut broken: Vec<Violation> = Vec::new();
            broken.push(Violation::NewAmountTooSmall);
            assert(broken@ =~= self.violations());
            Err(broken)
        }
    }
}

/// Body of a delete request.
#[derive(Debug, Clone, PartialEq, Eq)]
pub struct DeletePizza {
    pub uuid: String,
}

impl DeletePizza {
    /// The body names an id.
    pub open spec fn is_valid(&self) -> bool {
        long_enough(self.uuid@, 1)
    }

    /// The rules that the body breaks.
    pub open spec fn violations(&self) -> Seq<Violation> {
        if long_enough(self.uuid@, 1) {
            Seq::<Violation>::empty()
        } else {
            seq![Violation::UuidNeeded]
        }
    }

    /// Checks the id.
    pub fn validate(&self) -> (checked: Result<(), Vec<Violation>>)
        ensures
            checked is Ok <==> self.is_valid(),
            checked matches Err(broken) ==> broken@ == self.violations() && broken@.len() > 0,
    {
        if validate_min_length(&self.uuid, 1) {
            Ok(())
        } else {
            let mut broken: Vec<Violation> = Vec::new();
            broken.push(Violation::UuidNeeded);
            assert(broken@ =~= self.violations());
            Err(broken)
        }
    }
}

} // verus!
