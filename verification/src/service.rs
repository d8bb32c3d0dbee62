//! The service as a whole: what a request does to the collection of orders,
//! and what it answers, when the store keeps its records faithfully.

use vstd::prelude::*;
use crate::db::database::{merged, WaitingView};
use crate::db::store::{answer, is_collection, lookup, QueryView, ReplyView};
use crate::errors::PizzaError;
use crate::models::ident::is_order_id;
use crate::models::rules::{large_enough, long_enough};
use crate::models::PizzaView;
use crate::routes::{
    delete_pizza_turn, get_orders_turn, get_pizza_turn, order_pizza_turn, removal_text,
    resumed_turn, update_order_turn, ResponseView, Route, TurnView,
};

verus! {

/// How many queries a turn may still send: two for an update that has yet
/// to fetch its order, one for any other query, none once it has ended.
pub open spec fn exchanges_left(turn: TurnView) -> nat {
    match turn {
        TurnView::Done(_) => 0,
        TurnView::Ask { waiting: WaitingView::Lookup { .. }, .. } => 2,
        TurnView::Ask { .. } => 1,
    }
}

/// Runs a turn to its end against a faithful store that holds `held`: the
/// collection afterwards, and the response.
pub open spec fn served(held: Map<Seq<char>, PizzaView>, turn: TurnView) -> (
    Map<Seq<char>, PizzaView>,
    ResponseView,
)
    decreases exchanges_left(turn),
{
    match turn {
        TurnView::Done(response) => (held, response),
        TurnView::Ask { query, route, waiting } => {
            let (kept, reply) = answer(held, query);
            served(kept, resumed_turn(route, waiting, reply))
        },
    }
}

/// Every reply brings a turn nearer to its end, so no request sends more
/// than two queries.
pub proof fn lemma_resume_advances(
    query: QueryView,
    route: Route,
    waiting: WaitingView,
    reply: ReplyView,
)
    ensures
        exchanges_left(resumed_turn(route, waiting, reply)) < exchanges_left(
            TurnView::Ask { query, route, waiting },
        ),
        exchanges_left(TurnView::Ask { query, route, waiting }) <= 2,
{
}

/// An order that was created is in the next listing, with the name and the
/// amount that were sent and with the id that was drawn for it.
pub proof fn lemma_created_order_is_listed(
    held: Map<Seq<char>, PizzaView>,
    pizza_name: Seq<char>,
    amount: u32,
    new_uuid: Seq<char>,
)
    requires
        is_collection(held),
        long_enough(pizza_name, 1),
        large_enough(amount, 1),
        is_order_id(new_uuid),
        !held.contains_key(new_uuid),
    ensures
        ({
            let record = PizzaView { uuid: new_uuid, pizza_name, amount };
            let (kept, response) = served(held, order_pizza_turn(pizza_name, amount, new_uuid));
            let (same, listing) = served(kept, get_orders_turn());
            &&& response == ResponseView::Empty
            &&& kept == held.insert(new_uuid, record)
            &&& same == kept
            &&& listing matches ResponseView::Orders(records) && records.contains(record)
            &&& is_order_id(record.uuid)
        }),
{
    reveal_with_fuel(served, 3);
    let record = PizzaView { uuid: new_uuid, pizza_name, amount };
    let kept = held.insert(new_uuid, record);
    assert(kept.contains_key(new_uuid));
    assert(kept.values().contains(record));
    vstd::map_lib::lemma_values_finite(kept);
    kept.values().lemma_to_seq_to_set_id();
    let records = kept.values().to_seq();
    assert(records.to_set().contains(record));
    assert(records.contains(record));
    assert(records.len() > 0);
}

/// A creation under an id that is taken answers the creation failure and
/// leaves the collection as it was.
pub proof fn lemma_order_under_taken_id_fails(
    held: Map<Seq<char>, PizzaView>,
    pizza_name: Seq<char>,
    amount: u32,
    new_uuid: Seq<char>,
)
    requires
        held.contains_key(new_uuid),
    ensures
        served(held, order_pizza_turn(pizza_name, amount, new_uuid)) == (
            held,
            ResponseView::Failure(PizzaError::PizzaCreationFailure),
        ),
{
    reveal_with_fuel(served, 3);
}

/// A listing answers every order of the collection, each once and in some
/// order, and answers that there are no orders where the collection is empty.
pub proof fn lemma_listing_shows_the_collection(held: Map<Seq<char>, PizzaView>)
    requires
        is_collection(held),
    ensures
        ({
            let (kept, response) = served(held, get_orders_turn());
            &&& kept == held
            &&& match response {
                ResponseView::Orders(records) => {
                    &&& records.len() > 0
                    &&& records.to_set() == held.values()
                },
                ResponseView::Failure(error) => {
                    &&& error == PizzaError::NoPizzasFound
                    &&& forall|id: Seq<char>| !held.contains_key(id)
                },
                _ => false,
            }
        }),
{
    reveal_with_fuel(served, 3);
    vstd::map_lib::lemma_values_finite(held);
    held.values().lemma_to_seq_to_set_id();
    let records = held.values().to_seq();
    if records.len() == 0 {
        assert forall|id: Seq<char>| !held.contains_key(id) by {
            if held.contains_key(id) {
                assert(held.values().contains(held[id]));
                assert(records.to_set().contains(held[id]));
            }
        }
    }
}

/// An update of an order that is there changes its amount and nothing else:
/// the order keeps its id and its name, every other order stays as it was,
/// and a fetch of the order shows the new amount. With an amount of zero
/// the update answers that the order is not found and changes nothing at all.
pub proof fn lemma_update_changes_only_amount(
    held: Map<Seq<char>, PizzaView>,
    uuid: Seq<char>,
    new_amount: u32,
)
    requires
        is_collection(held),
        held.contains_key(uuid),
    ensures
        ({
            let before = held[uuid];
            let (kept, response) = served(held, update_order_turn(uuid, new_amount));
            &&& kept.dom() == held.dom()
            &&& kept[uuid].uuid == before.uuid
            &&& kept[uuid].pizza_name == before.pizza_name
            &&& forall|other: Seq<char>|
                held.contains_key(other) && other != uuid ==> #[trigger] kept[other] == held[other]
            &&& new_amount >= 1 ==> {
                &&& response == ResponseView::Empty
                &&& kept[uuid].amount == new_amount
                &&& served(kept, get_pizza_turn(uuid)) == (kept, ResponseView::Order(kept[uuid]))
            }
            &&& new_amount == 0 ==> {
                &&& response == ResponseView::Failure(PizzaError::NoSuchPizzaFound)
                &&& kept == held
            }
        }),
{
    reveal_with_fuel(served, 3);
    let before = held[uuid];
    let after = merged(uuid, before, new_amount);
    assert(before.uuid == uuid);
    assert(held.insert(uuid, after).dom() =~= held.dom());
}

/// An update of an order that is not there answers that the order is not
/// found, and creates nothing.
pub proof fn lemma_update_of_missing_order(
    held: Map<Seq<char>, PizzaView>,
    uuid: Seq<char>,
    new_amount: u32,
)
    requires
        !held.contains_key(uuid),
    ensures
        served(held, update_order_turn(uuid, new_amount)) == (
            held,
            ResponseView::Failure(PizzaError::NoSuchPizzaFound),
        ),
{
    reveal_with_fuel(served, 3);
}

/// A removal of an order that is there takes it out of the collection and
/// leaves the others as they were; a fetch of it then answers that the order
/// is not found.
pub proof fn lemma_deleted_order_is_gone(held: Map<Seq<char>, PizzaView>, uuid: Seq<char>)
    requires
        is_collection(held),
        held.contains_key(uuid),
    ensures
        ({
            let (kept, response) = served(held, delete_pizza_turn(uuid));
            &&& response == ResponseView::Text(removal_text(held[uuid]))
            &&& kept == held.remove(uuid)
            &&& served(kept, get_pizza_turn(uuid)) == (
                kept,
                ResponseView::Failure(PizzaError::NoSuchPizzaFound),
            )
        }),
{
    reveal_with_fuel(served, 3);
    assert(held[uuid].uuid == uuid);
}

/// A removal of an order that is not there answers that no id matches, and
/// leaves the collection as it was.
pub proof fn lemma_delete_of_missing_order(held: Map<Seq<char>, PizzaView>, uuid: Seq<char>)
    requires
        !held.contains_key(uuid),
    ensures
        served(held, delete_pizza_turn(uuid)) == (
            held,
            ResponseView::Failure(PizzaError::QuerryError),
        ),
{
    reveal_with_fuel(served, 3);
    assert(held.remove(uuid) =~= held);
}

/// A creation with an empty name or with an amount of zero answers the
/// creation failure, with status 500, and leaves the collection as it was,
/// whatever id is at hand.
pub proof fn lemma_invalid_order_is_rejected(
    held: Map<Seq<char>, PizzaView>,
    pizza_name: Seq<char>,
    amount: u32,
    new_uuid: Seq<char>,
)
    requires
        pizza_name.len() == 0 || amount == 0,
    ensures
        order_pizza_turn(pizza_name, amount, new_uuid) == TurnView::Done(
            ResponseView::Failure(PizzaError::PizzaCreationFailure),
        ),
        served(held, order_pizza_turn(pizza_name, amount, new_uuid)) == (
            held,
            ResponseView::Failure(PizzaError::PizzaCreationFailure),
        ),
        served(held, order_pizza_turn(pizza_name, amount, new_uuid)).1.status_code() == 500,
{
    reveal_with_fuel(served, 3);
}

/// A listing and a fetch leave the collection as it was.
pub proof fn lemma_reads_change_nothing(held: Map<Seq<char>, PizzaView>, pizza_id: Seq<char>)
    ensures
        served(held, get_orders_turn()).0 == held,
        served(held, get_pizza_turn(pizza_id)) == (
            held,
            match lookup(held, pizza_id) {
                Some(record) => ResponseView::Order(record),
                None => ResponseView::Failure(PizzaError::NoSuchPizzaFound),
            },
        ),
{
    reveal_with_fuel(served, 3);
}

/// Whatever the requests are, the collection stays one of well-formed
/// orders, each under its own id: a creation writes only a valid body under
/// an order id, an update only a valid amount over an order that is there.
pub proof fn lemma_collection_stays_well_formed(
    held: Map<Seq<char>, PizzaView>,
    pizza_name: Seq<char>,
    amount: u32,
    uuid: Seq<char>,
)
    requires
        is_collection(held),
    ensures
        is_collection(served(held, get_orders_turn()).0),
        is_collection(served(held, get_pizza_turn(uuid)).0),
        is_order_id(uuid) ==> is_collection(
            served(held, order_pizza_turn(pizza_name, amount, uuid)).0,
        ),
        is_collection(served(held, update_order_turn(uuid, amount)).0),
        is_collection(served(held, delete_pizza_turn(uuid)).0),
{
    reveal_with_fuel(served, 3);
    if held.contains_key(uuid) {
        assert(held[uuid].uuid == uuid);
    }
}

} // verus!
