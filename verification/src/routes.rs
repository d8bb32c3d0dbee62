//! The five request handlers. A handler checks its input and starts a
//! data-access operation; `resume` takes each reply of the store until the
//! handler ends with the response to send. No handler sends more than two
//! queries, and none sends one for a request that fails its check.

use vstd::prelude::*;
use vstd::string::StringExecFns;
use crate::db::database::{resumed, Access, AccessView, Database, Waiting, WaitingView};
use crate::db::store::{Query, QueryView, Reply, ReplyView};
use crate::errors::PizzaError;
use crate::models::ident::{fresh_order_id, is_order_id, lemma_order_id_exists};
use crate::models::rules::{large_enough, long_enough};
use crate::models::{BuyPizzaRequest, DeletePizza, Pizza, PizzaView, UpdatePizza};

verus! {

/// What the handlers share: the data-access layer.
#[derive(Debug, Clone, PartialEq, Eq)]
pub struct AppState {
    pub db: Database,
}

/// The handler that a reply of the store belongs to.
#[derive(Debug, Clone, Copy, PartialEq, Eq, Structural)]
pub enum Route {
    /// The listing of all orders.
    Orders,
    /// The fetch of one order.
    Pizza,
    /// The creation of an order.
    Order,
    /// The change of an order's amount.
    Update,
    /// The removal of an order.
    Removal,
}

/// What a handler answers.
#[derive(Debug, Clone, PartialEq, Eq)]
pub enum Response {
    /// Status 200 with all orders as a JSON array.
    Orders(Vec<Pizza>),
    /// Status 200 with one order as a JSON object.
    Order(Pizza),
    /// Status 200 with an empty body.
    Empty,
    /// Status 200 with plain text.
    Text(String),
    /// The status code and the JSON body of the failure.
    Failure(PizzaError),
}

/// The mathematical value of a [`Response`].
pub enum ResponseView {
    Orders(Seq<PizzaView>),
    Order(PizzaView),
    Empty,
    Text(Seq<char>),
    Failure(PizzaError),
}

impl View for Response {
    type V = ResponseView;

    open spec fn view(&self) -> ResponseView {
        match self {
            Response::Orders(records) => ResponseView::Orders(records.deep_view()),
            Response::Order(record) => ResponseView::Order(record@),
            Response::Empty => ResponseView::Empty,
            Response::Text(text) => ResponseView::Text(text@),
            Response::Failure(error) => ResponseView::Failure(*error),
        }
    }
}

impl ResponseView {
    /// The HTTP status code of the response.
    pub open spec fn status_code(self) -> u16 {
        match self {
            ResponseView::Failure(error) => error.spec_status_code(),
            _ => 200,
        }
    }
}

impl Response {
    /// The HTTP status code of the response.
    pub fn status_code(&self) -> (code: u16)
        ensures
            code == self@.status_code(),
    {
        match self {
            Response::Failure(error) => error.status_code(),
            _ => 200,
        }
    }
}

/// Where the handling of a request stands.
#[derive(Debug, Clone, PartialEq, Eq)]
pub enum Turn {
    /// `query` is to be sent to the store, and the reply handed to `resume`
    /// with `route` and `waiting`.
    Ask { query: Query, route: Route, waiting: Waiting },
    /// The handler has ended with this response.
    Done(Response),
}

/// The mathematical value of a [`Turn`].
pub enum TurnView {
    Ask { query: QueryView, route: Route, waiting: WaitingView },
    Done(ResponseView),
}

impl View for Turn {
    type V = TurnView;

    open spec fn view(&self) -> TurnView {
        match self {
            Turn::Ask { query, route, waiting } => TurnView::Ask {
                query: query@,
                route: *route,
                waiting: waiting@,
            },
            Turn::Done(response) => TurnView::Done(response@),
        }
    }
}

/// The text that `Debug` gives for an order with these fields.
pub uninterp spec fn debug_text(uuid: Seq<char>, pizza_name: Seq<char>, amount: u32) -> Seq<char>;

/// std's `format!` with `{:?}` on an order: the `Debug` text of the record,
/// which depends on its three fields alone. Trusted, not proved.
#[verifier::external_body]
fn debug_of(pizza: &Pizza) -> (text: String)
    ensures
        text@ == debug_text(pizza.uuid@, pizza.pizza_name@, pizza.amount),
{
    format!("{:?}", pizza)
}

/// The failure that each handler answers where the data-access layer
/// comes back absent.
pub open spec fn failure_of(route: Route) -> PizzaError {
    match route {
        Route::Orders => PizzaError::NoPizzasFound,
        Route::Pizza => PizzaError::NoSuchPizzaFound,
        Route::Order => PizzaError::PizzaCreationFailure,
        Route::Update => PizzaError::NoSuchPizzaFound,
        Route::Removal => PizzaError::QuerryError,
    }
}

/// The confirmation of a removal.
pub open spec fn removal_text(removed: PizzaView) -> Seq<char> {
    "successfuly deleted "@ + debug_text(removed.uuid, removed.pizza_name, removed.amount)
}

/// The response to a listing that ended with `found`. Only the listing of
/// all orders has a use for records, and it needs at least one.
pub open spec fn listed(route: Route, found: Option<Seq<PizzaView>>) -> ResponseView {
    match found {
        Some(records) => if route == Route::Orders && records.len() > 0 {
            ResponseView::Orders(records)
        } else {
            ResponseView::Failure(failure_of(route))
        },
        None => ResponseView::Failure(failure_of(route)),
    }
}

/// The response to an operation on one id that ended with `found`.
pub open spec fn concluded(route: Route, found: Option<PizzaView>) -> ResponseView {
    match found {
        Some(record) => match route {
            Route::Orders => ResponseView::Failure(PizzaError::NoPizzasFound),
            Route::Pizza => ResponseView::Order(record),
            Route::Order => ResponseView::Empty,
            Route::Update => ResponseView::Empty,
            Route::Removal => ResponseView::Text(removal_text(record)),
        },
        None => ResponseView::Failure(failure_of(route)),
    }
}

/// The turn of the handler on `route` whose data-access operation stands at
/// `access`.
pub open spec fn settled(route: Route, access: AccessView) -> TurnView {
    match access {
        AccessView::Ask { query, waiting } => TurnView::Ask { query, route, waiting },
        AccessView::Records(found) => TurnView::Done(listed(route, found)),
        AccessView::Record(found) => TurnView::Done(concluded(route, found)),
    }
}

/// The first turn of a listing.
pub open spec fn get_orders_turn() -> TurnView {
    TurnView::Ask {
        query: QueryView::SelectAll,
        route: Route::Orders,
        waiting: WaitingView::Records,
    }
}

/// The first turn of a fetch.
pub open spec fn get_pizza_turn(pizza_id: Seq<char>) -> TurnView {
    TurnView::Ask {
        query: QueryView::Select { id: pizza_id },
        route: Route::Pizza,
        waiting: WaitingView::Record,
    }
}

/// The insert of a new order with the given id.
pub open spec fn placed(pizza_name: Seq<char>, amount: u32, new_uuid: Seq<char>) -> TurnView {
    TurnView::Ask {
        query: QueryView::Create { record: PizzaView { uuid: new_uuid, pizza_name, amount } },
        route: Route::Order,
        waiting: WaitingView::Record,
    }
}

/// The first turn of a creation for which the id `new_uuid` was drawn: the
/// insert, or the failure at once where the body is invalid.
pub open spec fn order_pizza_turn(
    pizza_name: Seq<char>,
    amount: u32,
    new_uuid: Seq<char>,
) -> TurnView {
    if long_enough(pizza_name, 1) && large_enough(amount, 1) {
        placed(pizza_name, amount, new_uuid)
    } else {
        TurnView::Done(ResponseView::Failure(PizzaError::PizzaCreationFailure))
    }
}

/// The first turn of an update: the fetch of the order, or the failure at
/// once where the new amount is invalid.
pub open spec fn update_order_turn(uuid: Seq<char>, new_amount: u32) -> TurnView {
    if large_enough(new_amount, 1) {
        TurnView::Ask {
            query: QueryView::Select { id: uuid },
            route: Route::Update,
            waiting: WaitingView::Lookup { uuid, new_amount },
        }
    } else {
        TurnView::Done(ResponseView::Failure(PizzaError::NoSuchPizzaFound))
    }
}

/// The first turn of a removal: the delete, or the failure at once where
/// the id is empty.
pub open spec fn delete_pizza_turn(uuid: Seq<char>) -> TurnView {
    if long_enough(uuid, 1) {
        TurnView::Ask {
            query: QueryView::Delete { id: uuid },
            route: Route::Removal,
            waiting: WaitingView::Record,
        }
    } else {
        TurnView::Done(ResponseView::Failure(PizzaError::QuerryError))
    }
}

/// The turn after the store's reply to the query of a turn.
pub open spec fn resumed_turn(route: Route, waiting: WaitingView, reply: ReplyView) -> TurnView {
    settled(route, resumed(waiting, reply))
}

/// The confirmation that a removal answers with.
fn removal_notice(removed: &Pizza) -> (text: String)
    ensures
        text@ == removal_text(removed@),
{
    let mut text = "successfuly deleted ".to_owned();
    let shown = debug_of(removed);
    text.append(shown.as_str());
    text
}

/// Turns the state of a data-access operation into the handler's turn.
fn settle(route: Route, access: Access) -> (turn: Turn)
    ensures
        turn@ == settled(route, access@),
{
    match access {
        Access::Ask { query, waiting } => Turn::Ask { query, route, waiting },
        Access::Records(found) => match found {
            Some(records) => match route {
                Route::Orders => if records.len() > 0 {
                    Turn::Done(Response::Orders(records))
                } else {
                    Turn::Done(Response::Failure(PizzaError::NoPizzasFound))
                },
                Route::Pizza => Turn::Done(Response::Failure(PizzaError::NoSuchPizzaFound)),
                Route::Order => Turn::Done(Response::Failure(PizzaError::PizzaCreationFailure)),
                Route::Update => Turn::Done(Response::Failure(PizzaError::NoSuchPizzaFound)),
                Route::Removal => Turn::Done(Response::Failure(PizzaError::QuerryError)),
            },
            None => Turn::Done(Response::Failure(absent(route))),
        },
        Access::Record(found) => match found {
            Some(record) => match route {
                Route::Orders => Turn::Done(Response::Failure(PizzaError::NoPizzasFound)),
                Route::Pizza => Turn::Done(Response::Order(record)),
                Route::Order => Turn::Done(Response::Empty),
                Route::Update => Turn::Done(Response::Empty),
                Route::Removal => Turn::Done(Response::Text(removal_notice(&record))),
            },
            None => Turn::Done(Response::Failure(absent(route))),
        },
    }
}

/// The failure of a handler whose data-access operation came back absent.
fn absent(route: Route) -> (error: PizzaError)
    ensures
        error == failure_of(route),
{
    match route {
        Route::Orders => PizzaError::NoPizzasFound,
        Route::Pizza => PizzaError::NoSuchPizzaFound,
        Route::Order => PizzaError::PizzaCreationFailure,
        Route::Update => PizzaError::NoSuchPizzaFound,
        Route::Removal => PizzaError::QuerryError,
    }
}

/// Lists all orders: asks the store for every record.
pub fn get_orders(state: &AppState) -> (turn: Turn)
    ensures
        turn@ == get_orders_turn(),
{
    settle(Route::Orders, state.db.get_all_pizzas())
}

/// Fetches one order: asks the store for the record under `pizza_id`,
/// whatever the id holds.
pub fn get_pizza(state: &AppState, pizza_id: String) -> (turn: Turn)
    ensures
        turn@ == get_pizza_turn(pizza_id@),
{
    settle(Route::Pizza, state.db.get_pizza_by_id(pizza_id))
}

/// Creates an order under the id `new_uuid`: asks the store to insert a
/// record with that id and the body's name and amount.
pub fn place_order(state: &AppState, body: BuyPizzaRequest, new_uuid: String) -> (turn: Turn)
    ensures
        turn@ == placed(body.pizza_name@, body.amount, new_uuid@),
{
    settle(Route::Order, state.db.add_pizza(Pizza::new(new_uuid, body.pizza_name, body.amount)))
}

/// Creates an order. An invalid body fails at once with the creation
/// failure and nothing is sent to the store; a valid one is inserted under a
/// fresh random id.
pub fn order_pizza(state: &AppState, body: BuyPizzaRequest) -> (turn: Turn)
    ensures
        !body.is_valid() ==> turn@ == TurnView::Done(
            ResponseView::Failure(PizzaError::PizzaCreationFailure),
        ),
        body.is_valid() ==> exists|new_uuid: Seq<char>| #[trigger]
            is_order_id(new_uuid) && turn@ == placed(body.pizza_name@, body.amount, new_uuid),
        exists|new_uuid: Seq<char>| #[trigger]
            is_order_id(new_uuid) && turn@ == order_pizza_turn(
                body.pizza_name@,
                body.amount,
                new_uuid,
            ),
{
    match body.validate() {
        Ok(_) => {
            let new_uuid = fresh_order_id();
            assert(is_order_id(new_uuid@));
            place_order(state, body, new_uuid)
        },
        Err(_) => {
            proof {
                lemma_order_id_exists();
            }
            Turn::Done(Response::Failure(PizzaError::PizzaCreationFailure))
        },
    }
}

/// Changes the amount of the order under `uuid`. An invalid body fails at
/// once as if the order were not there; a valid one starts with the fetch of
/// the order.
pub fn update_order(state: &AppState, uuid: String, body: UpdatePizza) -> (turn: Turn)
    ensures
        turn@ == update_order_turn(uuid@, body.new_amount),
{
    match body.validate() {
        Ok(_) => settle(Route::Update, state.db.update_pizza_order(uuid, body.new_amount)),
        Err(_) => Turn::Done(Response::Failure(PizzaError::NoSuchPizzaFound)),
    }
}

/// Removes the order that the body names. An empty id fails at once; any
/// other is handed to the store.
pub fn delete_pizza(state: &AppState, body: DeletePizza) -> (turn: Turn)
    ensures
        turn@ == delete_pizza_turn(body.uuid@),
{
    match body.validate() {
        Ok(_) => settle(Route::Removal, state.db.delete_pizza(body.uuid)),
        Err(_) => Turn::Done(Response::Failure(PizzaError::QuerryError)),
    }
}

/// Takes the store's reply to the query of a turn and gives the next turn:
/// the update's write after its fetch, or the response. An absent result
/// becomes the failure of the handler on `route`.
pub fn resume(state: &AppState, route: Route, waiting: Waiting, reply: Reply) -> (turn: Turn)
    ensures
        turn@ == resumed_turn(route, waiting@, reply@),
{
    settle(route, state.db.resume(waiting, reply))
}

} // verus!
