use rabbitmq_management_client::api::create::{
    check_absent, create_decision, exact_match_regex,
};
use rabbitmq_management_client::errors::RabbitMqClientError;

#[test]
fn creating_over_an_existing_name_is_refused() {
    let listed = Ok(vec![String::from("X")]);
    match create_decision(listed, &String::from("X")) {
        Err(RabbitMqClientError::AlreadyExists(n)) => assert_eq!(n, "X"),
        other => panic!("expected AlreadyExists, got {:?}", other),
    }
}

#[test]
fn creating_an_absent_name_proceeds() {
    let listed: Result<Vec<String>, RabbitMqClientError> = Ok(vec![]);
    assert!(create_decision(listed, &String::from("Y")).is_ok());
}

#[test]
fn a_failed_listing_propagates_unchanged() {
    let listed: Result<Vec<String>, RabbitMqClientError> =
        Err(RabbitMqClientError::Unauthorized);
    assert!(matches!(
        create_decision(listed, &String::from("Z")),
        Err(RabbitMqClientError::Unauthorized)
    ));
}

#[test]
fn check_absent_finds_a_match_among_others() {
    let names = vec![
        String::from("alpha"),
        String::from("beta"),
        String::from("gamma"),
    ];
    match check_absent(&names, &String::from("beta")) {
        Err(RabbitMqClientError::AlreadyExists(n)) => assert_eq!(n, "beta"),
        other => panic!("expected AlreadyExists, got {:?}", other),
    }
    assert!(check_absent(&names, &String::from("delta")).is_ok());
}

#[test]
fn check_absent_on_an_empty_listing_proceeds() {
    let names: Vec<String> = vec![];
    assert!(check_absent(&names, &String::from("anything")).is_ok());
}

#[test]
fn exact_match_regex_anchors_the_name() {
    assert_eq!(exact_match_regex("my-exchange"), "(my-exchange$)");
    assert_eq!(exact_match_regex(""), "($)");
}
