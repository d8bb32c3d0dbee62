//! The five data-access operations. Each one starts by naming the query to
//! send; `resume` reads the reply and either names a second query or ends
//! with a result that is present or absent, never with a cause.

use vstd::prelude::*;
use crate::models::{Pizza, PizzaView};
use super::store::{Query, QueryView, Reply, ReplyView};

verus! {

/// The namespace and database that the session with the store selects.
#[derive(Debug, Clone, PartialEq, Eq)]
pub struct Database {
    pub name_space: String,
    pub db_name: String,
}

/// What an operation that has sent a query is waiting for.
#[derive(Debug, Clone, PartialEq, Eq)]
pub enum Waiting {
    /// The records of a listing.
    Records,
    /// The record that a get, a create, a delete or an update's write touched.
    Record,
    /// The record that an update is about to change: its name is kept, its
    /// amount becomes `new_amount`, and it is written back under `uuid`.
    Lookup { uuid: String, new_amount: u32 },
}

/// The mathematical value of a [`Waiting`].
pub enum WaitingView {
    Records,
    Record,
    Lookup { uuid: Seq<char>, new_amount: u32 },
}

impl View for Waiting {
    type V = WaitingView;

    open spec fn view(&self) -> WaitingView {
        match self {
            Waiting::Records => WaitingView::Records,
            Waiting::Record => WaitingView::Record,
            Waiting::Lookup { uuid, new_amount } => WaitingView::Lookup {
                uuid: uuid@,
                new_amount: *new_amount,
            },
        }
    }
}

/// Where a data-access operation stands.
#[derive(Debug, Clone, PartialEq, Eq)]
pub enum Access {
    /// `query` is to be sent, and the reply handed to `resume` with `waiting`.
    Ask { query: Query, waiting: Waiting },
    /// A listing ended: the records, or absent.
    Records(Option<Vec<Pizza>>),
    /// An operation on one id ended: the record, or absent.
    Record(Option<Pizza>),
}

/// The mathematical value of an [`Access`].
pub enum AccessView {
    Ask { query: QueryView, waiting: WaitingView },
    Records(Option<Seq<PizzaView>>),
    Record(Option<PizzaView>),
}

impl View for Access {
    type V = AccessView;

    open spec fn view(&self) -> AccessView {
        match self {
            Access::Ask { query, waiting } => AccessView::Ask { query: query@, waiting: waiting@ },
            Access::Records(found) => AccessView::Records(found.deep_view()),
            Access::Record(found) => AccessView::Record(found.deep_view()),
        }
    }
}

/// The records of a listing's reply: present where the store sent at least
/// one record, absent where it sent none, failed, or sent something else.
pub open spec fn narrowed_records(reply: ReplyView) -> Option<Seq<PizzaView>> {
    match reply {
        ReplyView::Records(records) => if records.len() > 0 {
            Some(records)
        } else {
            None
        },
        _ => None,
    }
}

/// The record of a reply on one id: present where the store sent one, absent
/// where it sent none, failed, or sent something else.
pub open spec fn narrowed_record(reply: ReplyView) -> Option<PizzaView> {
    match reply {
        ReplyView::Record(found) => found,
        _ => None,
    }
}

/// What an update writes back: the id it was asked for, the name that the
/// store holds, the new amount.
pub open spec fn merged(uuid: Seq<char>, found: PizzaView, new_amount: u32) -> PizzaView {
    PizzaView { uuid, pizza_name: found.pizza_name, amount: new_amount }
}

/// Where an operation stands once the reply to its query is in.
pub open spec fn resumed(waiting: WaitingView, reply: ReplyView) -> AccessView {
    match waiting {
        WaitingView::Records => AccessView::Records(narrowed_records(reply)),
        WaitingView::Record => AccessView::Record(narrowed_record(reply)),
        WaitingView::Lookup { uuid, new_amount } => match narrowed_record(reply) {
            Some(found) => AccessView::Ask {
                query: QueryView::Merge { record: merged(uuid, found, new_amount) },
                waiting: WaitingView::Record,
            },
            None => AccessView::Record(None),
        },
    }
}

impl Database {
    /// The selectors of the one collection of orders.
    pub fn init() -> (db: Database)
        ensures
            db.name_space@ == "surreal"@,
            db.db_name@ == "pizzas"@,
    {
        Database { name_space: "surreal".to_owned(), db_name: "pizzas".to_owned() }
    }

    /// Starts a listing of every order.
    pub fn get_all_pizzas(&self) -> (access: Access)
        ensures
            access@ == (AccessView::Ask {
                query: QueryView::SelectAll,
                waiting: WaitingView::Records,
            }),
    {
        Access::Ask { query: Query::SelectAll, waiting: Waiting::Records }
    }

    /// Starts the fetch of the order under `pizza_id`.
    pub fn get_pizza_by_id(&self, pizza_id: String) -> (access: Access)
        ensures
            access@ == (AccessView::Ask {
                query: QueryView::Select { id: pizza_id@ },
                waiting: WaitingView::Record,
            }),
    {
        Access::Ask { query: Query::Select { id: pizza_id }, waiting: Waiting::Record }
    }

    /// Starts the insert of `new_pizza` under its own id.
    pub fn add_pizza(&self, new_pizza: Pizza) -> (access: Access)
        ensures
            access@ == (AccessView::Ask {
                query: QueryView::Create { record: new_pizza@ },
                waiting: WaitingView::Record,
            }),
    {
        Access::Ask { query: Query::Create { record: new_pizza }, waiting: Waiting::Record }
    }

    /// Starts an update: the order under `uuid` is fetched first, so that its
    /// name can be written back with the new amount.
    pub fn update_pizza_order(&self, uuid: String, new_amount: u32) -> (access: Access)
        ensures
            access@ == (AccessView::Ask {
                query: QueryView::Select { id: uuid@ },
                waiting: WaitingView::Lookup { uuid: uuid@, new_amount },
            }),
    {
        let id = uuid.clone();
        Access::Ask { query: Query::Select { id }, waiting: Waiting::Lookup { uuid, new_amount } }
    }

    /// Starts the removal of the order under `id_to_delete`.
    pub fn delete_pizza(&self, id_to_delete: String) -> (access: Access)
        ensures
            access@ == (AccessView::Ask {
                query: QueryView::Delete { id: id_to_delete@ },
                waiting: WaitingView::Record,
            }),
    {
        Access::Ask { query: Query::Delete { id: id_to_delete }, waiting: Waiting::Record }
    }

    /// Reads the reply to the query of an operation that was `waiting`.
    /// Every failure ends the operation with an absent result. An update
    /// that found its order goes on to write it back; one that did not ends
    /// absent and sends nothing more.
    pub fn resume(&self, waiting: Waiting, reply: Reply) -> (access: Access)
        ensures
            access@ == resumed(waiting@, reply@),
    {
        match waiting {
            Waiting::Records => match reply {
                Reply::Records(records) => if records.len() > 0 {
                    Access::Records(Some(records))
                } else {
                    Access::Records(None)
                },
                _ => Access::Records(None),
            },
            Waiting::Record => match reply {
                Reply::Record(found) => Access::Record(found),
                _ => Access::Record(None),
            },
            Waiting::Lookup { uuid, new_amount } => match reply {
                Reply::Record(Some(found)) => {
                    let record = Pizza { uuid, pizza_name: found.pizza_name, amount: new_amount };
                    Access::Ask { query: Query::Merge { record }, waiting: Waiting::Record }
                },
                _ => Access::Record(None),
            },
        }
    }
}

} // verus!
