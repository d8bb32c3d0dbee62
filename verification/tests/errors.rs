use pizza_orders::errors::{ErrorResponse, HandlerError, PizzaError};

#[test]
fn no_pizzas_found_is_404() {
    let (code, body) = HandlerError::from(PizzaError::NoPizzasFound);
    assert_eq!(code, 404);
    assert_eq!(body.status, "......");
    assert_eq!(body.message, "No pizza orders!!!");
}

#[test]
fn creation_failure_is_500() {
    let (code, body) = HandlerError::from(PizzaError::PizzaCreationFailure);
    assert_eq!(code, 500);
    assert_eq!(body.status, "error");
    assert_eq!(body.message, "There's an error with the server");
}

#[test]
fn no_such_pizza_is_404() {
    let (code, body) = HandlerError::from(PizzaError::NoSuchPizzaFound);
    assert_eq!(code, 404);
    assert_eq!(body.status, "not found");
    assert_eq!(body.message, "That kind of pizza is not found");
}

#[test]
fn query_error_is_404() {
    let (code, body) = HandlerError::from(PizzaError::QuerryError);
    assert_eq!(code, 404);
    assert_eq!(body.status, "not found");
    assert_eq!(body.message, "No matching ID in the database");
}

#[test]
fn into_gives_what_from_gives() {
    let sent: HandlerError = PizzaError::QuerryError.into();
    assert_eq!(
        sent,
        (404, ErrorResponse { status: "not found", message: "No matching ID in the database" })
    );
}

#[test]
fn code_and_body_agree_with_the_conversion() {
    let all = [
        PizzaError::NoPizzasFound,
        PizzaError::PizzaCreationFailure,
        PizzaError::NoSuchPizzaFound,
        PizzaError::QuerryError,
    ];
    for error in all {
        assert_eq!(HandlerError::from(error), (error.status_code(), error.body()));
    }
}
