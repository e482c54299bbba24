use rabbitmq_management_client::api::generic::{
    handle_empty_response, handle_response, map_error, status_is_success,
};
use rabbitmq_management_client::errors::RabbitMqClientError;

#[test]
fn success_status_with_decoded_body_returns_value() {
    let r: Result<u32, RabbitMqClientError> =
        handle_response(200, Ok(String::from("7")), Ok(7u32));
    assert!(matches!(r, Ok(7)));
    let r: Result<String, RabbitMqClientError> = handle_response(
        299,
        Ok(String::from("\"edge\"")),
        Ok(String::from("edge")),
    );
    assert_eq!(r.unwrap(), "edge");
}

#[test]
fn success_status_with_undecodable_body_is_parsing_error() {
    let r: Result<u32, RabbitMqClientError> = handle_response(
        200,
        Ok(String::from("not json")),
        Err(String::from("expected a number")),
    );
    match r {
        Err(RabbitMqClientError::ParsingError(m)) => assert_eq!(m, "expected a number"),
        other => panic!("expected ParsingError, got {:?}", other),
    }
}

#[test]
fn unauthorized_regardless_of_body() {
    for body in ["", "denied", "{\"reason\":\"bad credentials\"}"] {
        let r: Result<u32, RabbitMqClientError> =
            handle_response(401, Ok(String::from(body)), Err(String::new()));
        assert!(matches!(r, Err(RabbitMqClientError::Unauthorized)));
        let e = handle_empty_response(401, Ok(String::from(body)));
        assert!(matches!(e, Err(RabbitMqClientError::Unauthorized)));
    }
}

#[test]
fn not_found_carries_exact_body_text() {
    let r: Result<u32, RabbitMqClientError> = handle_response(
        404,
        Ok(String::from("Object Not Found")),
        Err(String::new()),
    );
    match r {
        Err(RabbitMqClientError::NotFound(t)) => assert_eq!(t, "Object Not Found"),
        other => panic!("expected NotFound, got {:?}", other),
    }
}

#[test]
fn other_failure_codes_become_api_errors() {
    for status in [400u16, 403, 409, 500, 503] {
        let r: Result<u32, RabbitMqClientError> = handle_response(
            status,
            Ok(String::from("broker detail")),
            Err(String::new()),
        );
        match r {
            Err(RabbitMqClientError::ApiError(a)) => {
                assert_eq!(a.code, status);
                assert_eq!(a.text, "broker detail");
            }
            other => panic!("expected ApiError for {}, got {:?}", status, other),
        }
    }
}

#[test]
fn unreadable_body_is_a_request_error() {
    let r: Result<u32, RabbitMqClientError> = handle_response(
        200,
        Err(String::from("connection reset")),
        Err(String::new()),
    );
    match r {
        Err(RabbitMqClientError::Request(m)) => assert_eq!(m, "connection reset"),
        other => panic!("expected Request, got {:?}", other),
    }
    let e = handle_empty_response(500, Err(String::from("timed out")));
    match e {
        Err(RabbitMqClientError::Request(m)) => assert_eq!(m, "timed out"),
        other => panic!("expected Request, got {:?}", other),
    }
}

#[test]
fn empty_response_success_ignores_body() {
    assert!(handle_empty_response(204, Ok(String::from("ignored"))).is_ok());
    assert!(handle_empty_response(200, Err(String::from("never read"))).is_ok());
}

#[test]
fn empty_response_failure_classifies_like_typed() {
    match handle_empty_response(404, Ok(String::from("gone"))) {
        Err(RabbitMqClientError::NotFound(t)) => assert_eq!(t, "gone"),
        other => panic!("expected NotFound, got {:?}", other),
    }
    match handle_empty_response(503, Ok(String::from("maintenance"))) {
        Err(RabbitMqClientError::ApiError(a)) => {
            assert_eq!(a.code, 503);
            assert_eq!(a.text, "maintenance");
        }
        other => panic!("expected ApiError, got {:?}", other),
    }
}

#[test]
fn map_error_priority_order() {
    assert!(matches!(
        map_error(401, String::from("body")),
        RabbitMqClientError::Unauthorized
    ));
    match map_error(404, String::from("detail")) {
        RabbitMqClientError::NotFound(t) => assert_eq!(t, "detail"),
        other => panic!("expected NotFound, got {:?}", other),
    }
    match map_error(400, String::from("bad")) {
        RabbitMqClientError::ApiError(a) => {
            assert_eq!(a.code, 400);
            assert_eq!(a.text, "bad");
        }
        other => panic!("expected ApiError, got {:?}", other),
    }
}

#[test]
fn status_range_bounds() {
    assert!(!status_is_success(199));
    assert!(status_is_success(200));
    assert!(status_is_success(299));
    assert!(!status_is_success(300));
}
