use tyria::dispatch::parse_response;
use tyria::error::{APIError, DispatchError};
use tyria::status::{classify_status, StatusClass};

fn parse_i32_list(body: &str) -> Option<Vec<i32>> {
    let v: serde_json::Value = serde_json::from_str(body).ok()?;
    let items = v.as_array()?;
    let mut out: Vec<i32> = Vec::new();
    for item in items {
        out.push(item.as_i64()? as i32);
    }
    Some(out)
}

#[test]
fn classify_valid_first_then_invalid_then_unknown() {
    let valid = vec![200u16];
    let invalid = vec![404u16];
    assert_eq!(classify_status(200, &valid, &invalid), StatusClass::Valid);
    assert_eq!(classify_status(404, &valid, &invalid), StatusClass::Invalid);
    assert_eq!(classify_status(500, &valid, &invalid), StatusClass::Unknown);
}

#[test]
fn classify_consults_valid_before_invalid() {
    let both = vec![200u16];
    assert_eq!(classify_status(200, &both, &both.clone()), StatusClass::Valid);
}

#[test]
fn valid_status_parses_body_as_success() {
    let r = parse_response(200, "[1,2,3]", vec![200], vec![404], parse_i32_list);
    assert_eq!(r, Ok(vec![1, 2, 3]));
}

#[test]
fn invalid_status_parses_body_as_documented_error() {
    let r = parse_response(404, "{\"text\": \"not found\"}", vec![200], vec![404], parse_i32_list);
    match r {
        Err(DispatchError::Api(e)) => assert_eq!(e.text(), "not found"),
        other => panic!("expected documented error, got {:?}", other),
    }
}

#[test]
fn partial_content_succeeds_on_batch_sets() {
    let full = parse_response(200, "[1,2]", vec![200, 206], vec![404], parse_i32_list);
    assert_eq!(full, Ok(vec![1, 2]));
    let partial = parse_response(206, "[1]", vec![200, 206], vec![404], parse_i32_list);
    assert_eq!(partial, Ok(vec![1]));
}

#[test]
fn undeclared_status_yields_unknown_status_error() {
    let r = parse_response(500, "{\"text\": \"ignored\"}", vec![200], vec![404], parse_i32_list);
    match r {
        Err(e @ DispatchError::UnknownStatus { status: 500 }) => {
            assert!(e.message().contains("500"));
            assert_eq!(e.message(), "unknown status code: 500");
        },
        other => panic!("expected unknown-status error, got {:?}", other),
    }
}

#[test]
fn malformed_success_body_is_distinct_from_api_error() {
    let r = parse_response(200, "not json at all", vec![200], vec![404], parse_i32_list);
    match r {
        Err(DispatchError::MalformedBody { status: 200 }) => {},
        other => panic!("expected malformed-body error, got {:?}", other),
    }
}

#[test]
fn malformed_error_body_is_distinct_from_api_error() {
    let r = parse_response(404, "[]", vec![200], vec![404], parse_i32_list);
    assert_eq!(r, Err(DispatchError::MalformedBody { status: 404 }));
}

#[test]
fn error_body_with_non_string_text_is_malformed() {
    let r = parse_response(404, "{\"text\": 5}", vec![200], vec![404], parse_i32_list);
    assert_eq!(r, Err(DispatchError::MalformedBody { status: 404 }));
}

#[test]
fn dispatch_is_idempotent_for_identical_responses() {
    let body = "[5,6]";
    let first = parse_response(200, body, vec![200, 206], vec![404], parse_i32_list);
    let second = parse_response(200, body, vec![200, 206], vec![404], parse_i32_list);
    assert_eq!(first, second);
    let e1 = parse_response(404, "{\"text\": \"gone\"}", vec![200], vec![404], parse_i32_list);
    let e2 = parse_response(404, "{\"text\": \"gone\"}", vec![200], vec![404], parse_i32_list);
    assert_eq!(e1, e2);
}

#[test]
fn api_error_carries_its_message() {
    let e = APIError::new("some message");
    assert_eq!(e.text(), "some message");
    assert_eq!(DispatchError::Api(e).message(), "some message");
}

#[test]
fn malformed_body_message_names_the_status() {
    let e = DispatchError::MalformedBody { status: 206 };
    assert_eq!(e.message(), "malformed body for status code: 206");
}
