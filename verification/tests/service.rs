use std::collections::BTreeMap;

use pizza_orders::db::{Database, Query, Reply, StoreError};
use pizza_orders::errors::{HandlerError, PizzaError};
use pizza_orders::models::{BuyPizzaRequest, DeletePizza, Pizza, UpdatePizza};
use pizza_orders::routes::{
    delete_pizza, get_orders, get_pizza, order_pizza, resume, update_order, AppState, Response,
    Turn,
};

fn state() -> AppState {
    AppState { db: Database::init() }
}

fn answer(held: &mut BTreeMap<String, Pizza>, sent: &mut Vec<Query>, query: Query) -> Reply {
    sent.push(query.clone());
    match query {
        Query::SelectAll => Reply::Records(held.values().cloned().collect()),
        Query::Select { id } => Reply::Record(held.get(&id).cloned()),
        Query::Create { record } => {
            if held.contains_key(&record.uuid) {
                Reply::Failed(StoreError::DuplicateKey)
            } else {
                held.insert(record.uuid.clone(), record.clone());
                Reply::Record(Some(record))
            }
        }
        Query::Merge { record } => {
            held.insert(record.uuid.clone(), record.clone());
            Reply::Record(Some(record))
        }
        Query::Delete { id } => Reply::Record(held.remove(&id)),
    }
}

fn serve(held: &mut BTreeMap<String, Pizza>, sent: &mut Vec<Query>, first: Turn) -> Response {
    let state = state();
    let mut turn = first;
    loop {
        match turn {
            Turn::Ask { query, route, waiting } => {
                let reply = answer(held, sent, query);
                turn = resume(&state, route, waiting, reply);
            }
            Turn::Done(response) => return response,
        }
    }
}

fn stocked() -> BTreeMap<String, Pizza> {
    let mut held = BTreeMap::new();
    for (uuid, pizza_name, amount) in [("aaa", "Margherita", 2), ("bbb", "Funghi", 1)] {
        held.insert(
            String::from(uuid),
            Pizza::new(String::from(uuid), String::from(pizza_name), amount),
        );
    }
    held
}

fn is_order_id(id: &str) -> bool {
    id.len() == 32 && id.chars().all(|c| matches!(c, '0'..='9' | 'a'..='f'))
}

#[test]
fn created_order_shows_in_the_listing() {
    let mut held = BTreeMap::new();
    let mut sent = Vec::new();
    let body = BuyPizzaRequest { pizza_name: String::from("Margherita"), amount: 2 };
    let created = serve(&mut held, &mut sent, order_pizza(&state(), body));
    assert_eq!(created, Response::Empty);
    assert_eq!(created.status_code(), 200);
    match serve(&mut held, &mut sent, get_orders(&state())) {
        Response::Orders(records) => {
            assert_eq!(records.len(), 1);
            assert!(is_order_id(&records[0].uuid));
            assert_eq!(records[0].pizza_name, "Margherita");
            assert_eq!(records[0].amount, 2);
        }
        other => panic!("no listing: {:?}", other),
    }
}

#[test]
fn created_orders_are_kept_side_by_side() {
    let mut held = stocked();
    let mut sent = Vec::new();
    for (pizza_name, amount) in [("Margherita", 2), ("Margherita", 2), ("Diavola", 7)] {
        let body = BuyPizzaRequest { pizza_name: String::from(pizza_name), amount };
        assert_eq!(serve(&mut held, &mut sent, order_pizza(&state(), body)), Response::Empty);
    }
    assert_eq!(held.len(), 5);
    assert_eq!(held.values().filter(|p| p.pizza_name == "Margherita" && p.amount == 2).count(), 3);
    assert_eq!(held.values().filter(|p| p.pizza_name == "Diavola" && p.amount == 7).count(), 1);
    assert!(held.iter().all(|(id, p)| *id == p.uuid));
}

#[test]
fn listing_of_an_empty_collection_is_404() {
    let mut held = BTreeMap::new();
    let mut sent = Vec::new();
    let response = serve(&mut held, &mut sent, get_orders(&state()));
    assert_eq!(response, Response::Failure(PizzaError::NoPizzasFound));
    assert_eq!(response.status_code(), 404);
}

#[test]
fn update_changes_the_amount_alone() {
    let mut held = stocked();
    let mut sent = Vec::new();
    let turn = update_order(&state(), String::from("aaa"), UpdatePizza { new_amount: 5 });
    let response = serve(&mut held, &mut sent, turn);
    assert_eq!(response, Response::Empty);
    assert_eq!(response.status_code(), 200);
    assert_eq!(sent.len(), 2);
    assert_eq!(
        serve(&mut held, &mut sent, get_pizza(&state(), String::from("aaa"))),
        Response::Order(Pizza::new(String::from("aaa"), String::from("Margherita"), 5))
    );
    assert_eq!(
        serve(&mut held, &mut sent, get_pizza(&state(), String::from("bbb"))),
        Response::Order(Pizza::new(String::from("bbb"), String::from("Funghi"), 1))
    );
    assert_eq!(held.len(), 2);
}

#[test]
fn update_of_a_missing_order_creates_nothing() {
    let mut held = stocked();
    let mut sent = Vec::new();
    let turn = update_order(&state(), String::from("zzz"), UpdatePizza { new_amount: 5 });
    let response = serve(&mut held, &mut sent, turn);
    assert_eq!(response, Response::Failure(PizzaError::NoSuchPizzaFound));
    assert_eq!(response.status_code(), 404);
    assert_eq!(sent, vec![Query::Select { id: String::from("zzz") }]);
    assert_eq!(held, stocked());
}

#[test]
fn update_with_zero_amount_sends_nothing() {
    let mut held = stocked();
    let mut sent = Vec::new();
    let turn = update_order(&state(), String::from("aaa"), UpdatePizza { new_amount: 0 });
    assert_eq!(
        serve(&mut held, &mut sent, turn),
        Response::Failure(PizzaError::NoSuchPizzaFound)
    );
    assert!(sent.is_empty());
    assert_eq!(held, stocked());
}

#[test]
fn deleted_order_is_not_found_afterwards() {
    let mut held = stocked();
    let mut sent = Vec::new();
    let turn = delete_pizza(&state(), DeletePizza { uuid: String::from("aaa") });
    assert_eq!(
        serve(&mut held, &mut sent, turn),
        Response::Text(String::from(
            "successfuly deleted Pizza { uuid: \"aaa\", pizza_name: \"Margherita\", amount: 2 }"
        ))
    );
    let response = serve(&mut held, &mut sent, get_pizza(&state(), String::from("aaa")));
    assert_eq!(response, Response::Failure(PizzaError::NoSuchPizzaFound));
    assert_eq!(response.status_code(), 404);
    assert_eq!(held.len(), 1);
    assert!(held.contains_key("bbb"));
}

#[test]
fn delete_of_a_missing_order_changes_nothing() {
    let mut held = stocked();
    let mut sent = Vec::new();
    let turn = delete_pizza(&state(), DeletePizza { uuid: String::from("zzz") });
    assert_eq!(serve(&mut held, &mut sent, turn), Response::Failure(PizzaError::QuerryError));
    assert_eq!(held, stocked());
}

#[test]
fn invalid_order_is_not_persisted() {
    let mut held = stocked();
    let mut sent = Vec::new();
    for (pizza_name, amount) in [("Margherita", 0), ("", 2), ("", 0)] {
        let body = BuyPizzaRequest { pizza_name: String::from(pizza_name), amount };
        let response = serve(&mut held, &mut sent, order_pizza(&state(), body));
        assert_eq!(response, Response::Failure(PizzaError::PizzaCreationFailure));
        assert_eq!(response.status_code(), 500);
    }
    assert!(sent.is_empty());
    assert_eq!(held, stocked());
}

#[test]
fn post_margherita_then_get_lists_it() {
    let mut held = stocked();
    let mut sent = Vec::new();
    let body = BuyPizzaRequest { pizza_name: String::from("Margherita"), amount: 2 };
    let posted = serve(&mut held, &mut sent, order_pizza(&state(), body));
    assert_eq!(posted, Response::Empty);
    assert_eq!(posted.status_code(), 200);
    match serve(&mut held, &mut sent, get_orders(&state())) {
        Response::Orders(records) => {
            assert_eq!(records.len(), 3);
            let fresh: Vec<&Pizza> = records.iter().filter(|p| is_order_id(&p.uuid)).collect();
            assert_eq!(fresh.len(), 1);
            assert_eq!(fresh[0].pizza_name, "Margherita");
            assert_eq!(fresh[0].amount, 2);
        }
        other => panic!("no listing: {:?}", other),
    }
}

#[test]
fn patch_new_amount_then_get_shows_it() {
    let mut held = BTreeMap::new();
    let mut sent = Vec::new();
    let body = BuyPizzaRequest { pizza_name: String::from("Margherita"), amount: 2 };
    assert_eq!(serve(&mut held, &mut sent, order_pizza(&state(), body)), Response::Empty);
    let id = held.keys().next().cloned().unwrap();
    let turn = update_order(&state(), id.clone(), UpdatePizza { new_amount: 5 });
    let patched = serve(&mut held, &mut sent, turn);
    assert_eq!(patched, Response::Empty);
    assert_eq!(patched.status_code(), 200);
    assert_eq!(
        serve(&mut held, &mut sent, get_pizza(&state(), id.clone())),
        Response::Order(Pizza::new(id, String::from("Margherita"), 5))
    );
}

#[test]
fn delete_of_doesnotexist_is_404_no_matching_id() {
    let mut held = stocked();
    let mut sent = Vec::new();
    let turn = delete_pizza(&state(), DeletePizza { uuid: String::from("doesnotexist") });
    let response = serve(&mut held, &mut sent, turn);
    assert_eq!(response.status_code(), 404);
    match response {
        Response::Failure(error) => {
            let (code, body) = HandlerError::from(error);
            assert_eq!(code, 404);
            assert_eq!(body.status, "not found");
            assert_eq!(body.message, "No matching ID in the database");
        }
        other => panic!("no failure: {:?}", other),
    }
}

#[test]
fn no_request_sends_more_than_two_queries() {
    let mut held = stocked();
    let mut sent = Vec::new();
    serve(&mut held, &mut sent, get_orders(&state()));
    assert_eq!(sent.len(), 1);
    sent.clear();
    serve(&mut held, &mut sent, get_pizza(&state(), String::from("aaa")));
    assert_eq!(sent.len(), 1);
    sent.clear();
    let body = BuyPizzaRequest { pizza_name: String::from("Margherita"), amount: 2 };
    serve(&mut held, &mut sent, order_pizza(&state(), body));
    assert_eq!(sent.len(), 1);
    sent.clear();
    let turn = update_order(&state(), String::from("aaa"), UpdatePizza { new_amount: 5 });
    serve(&mut held, &mut sent, turn);
    assert_eq!(sent.len(), 2);
    sent.clear();
    serve(&mut held, &mut sent, delete_pizza(&state(), DeletePizza { uuid: String::from("aaa") }));
    assert_eq!(sent.len(), 1);
}
