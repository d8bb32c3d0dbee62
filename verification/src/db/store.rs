//! What travels between the data-access layer and the store, and what a
//! store that keeps its records faithfully answers.

use vstd::prelude::*;
use crate::models::{Pizza, PizzaView};

verus! {

/// One request to the store's collection of orders.
#[derive(Debug, Clone, PartialEq, Eq)]
pub enum Query {
    /// Fetch every record.
    SelectAll,
    /// Fetch the record under `id`.
    Select { id: String },
    /// Insert `record` under its own id; fails where the id is taken.
    Create { record: Pizza },
    /// Write the fields of `record` over what is under its id.
    Merge { record: Pizza },
    /// Remove the record under `id` and hand it back.
    Delete { id: String },
}

/// The mathematical value of a [`Query`].
pub enum QueryView {
    SelectAll,
    Select { id: Seq<char> },
    Create { record: PizzaView },
    Merge { record: PizzaView },
    Delete { id: Seq<char> },
}

impl View for Query {
    type V = QueryView;

    open spec fn view(&self) -> QueryView {
        match self {
            Query::SelectAll => QueryView::SelectAll,
            Query::Select { id } => QueryView::Select { id: id@ },
            Query::Create { record } => QueryView::Create { record: record@ },
            Query::Merge { record } => QueryView::Merge { record: record@ },
            Query::Delete { id } => QueryView::Delete { id: id@ },
        }
    }
}

/// Why the store gave no result.
#[derive(Debug, Clone, Copy, PartialEq, Eq, Structural)]
pub enum StoreError {
    /// The store could not be reached, or the exchange broke off.
    Transport,
    /// A record with that id is there already.
    DuplicateKey,
    /// The store refused the query for another reason.
    Rejected,
    /// The reply could not be read as what was asked for.
    Malformed,
}

/// What the store sent back.
#[derive(Debug, Clone, PartialEq, Eq)]
pub enum Reply {
    /// The records of a listing.
    Records(Vec<Pizza>),
    /// The record that a query on one id touched, if there was one.
    Record(Option<Pizza>),
    /// No result, and the cause.
    Failed(StoreError),
}

/// The mathematical value of a [`Reply`].
pub enum ReplyView {
    Records(Seq<PizzaView>),
    Record(Option<PizzaView>),
    Failed(StoreError),
}

impl View for Reply {
    type V = ReplyView;

    open spec fn view(&self) -> ReplyView {
        match self {
            Reply::Records(records) => ReplyView::Records(records.deep_view()),
            Reply::Record(record) => ReplyView::Record(record.deep_view()),
            Reply::Failed(cause) => ReplyView::Failed(*cause),
        }
    }
}

/// A collection of orders keyed by id, as a store holds it: finitely many
/// records, each under its own id and well formed.
pub open spec fn is_collection(held: Map<Seq<char>, PizzaView>) -> bool {
    &&& held.dom().finite()
    &&& forall|id: Seq<char>| #[trigger]
        held.contains_key(id) ==> held[id].uuid == id && held[id].well_formed()
}

/// The record under `id`, if there is one.
pub open spec fn lookup(held: Map<Seq<char>, PizzaView>, id: Seq<char>) -> Option<PizzaView> {
    if held.contains_key(id) {
        Some(held[id])
    } else {
        None
    }
}

/// What a faithful store does with a query: the collection afterwards and the
/// reply. A listing gives the records in some order.
pub open spec fn answer(held: Map<Seq<char>, PizzaView>, query: QueryView) -> (
    Map<Seq<char>, PizzaView>,
    ReplyView,
) {
    match query {
        QueryView::SelectAll => (held, ReplyView::Records(held.values().to_seq())),
        QueryView::Select { id } => (held, ReplyView::Record(lookup(held, id))),
        QueryView::Create { record } => if held.contains_key(record.uuid) {
            (held, ReplyView::Failed(StoreError::DuplicateKey))
        } else {
            (held.insert(record.uuid, record), ReplyView::Record(Some(record)))
        },
        QueryView::Merge { record } => (
            held.insert(record.uuid, record),
            ReplyView::Record(Some(record)),
        ),
        QueryView::Delete { id } => (held.remove(id), ReplyView::Record(lookup(held, id))),
    }
}

} // verus!
