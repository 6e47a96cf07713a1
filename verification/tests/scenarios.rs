use tyria::dispatch::parse_response;
use tyria::endpoint::Endpoint;
use tyria::error::DispatchError;
use tyria::request::{plan_request, RequestPlan, Session};

/// A fixed in-memory transport: asserts the headers the plan carries and
/// answers with a canned status and body.
struct MockTransport {
    expected_bearer: Option<&'static str>,
    status: u16,
    body: &'static str,
}

impl MockTransport {
    fn get(&self, plan: &RequestPlan) -> (u16, String) {
        assert_eq!(plan.bearer.as_deref(), self.expected_bearer);
        assert!(!plan.locale.is_empty());
        (self.status, self.body.to_string())
    }
}

#[derive(Debug, PartialEq)]
struct AccountSummary {
    id: String,
    age: i32,
}

fn parse_account(body: &str) -> Option<AccountSummary> {
    let v: serde_json::Value = serde_json::from_str(body).ok()?;
    Some(AccountSummary {
        id: v.get("id")?.as_str()?.to_string(),
        age: v.get("age")?.as_i64()? as i32,
    })
}

#[test]
fn account_request_carries_bearer_and_yields_parsed_account() {
    let session = Session::new("en", Some("abc".to_string()));
    let plan = plan_request(&session, &Endpoint::Account);
    let transport = MockTransport {
        expected_bearer: Some("Bearer abc"),
        status: 200,
        body: "{\"id\":\"123\",\"age\":100,\"name\":\"account.1234\",\"world\":1001}",
    };
    let (status, body) = transport.get(&plan);
    let outcome = parse_response(status, body.as_str(), plan.valid, plan.invalid, parse_account);
    let account = outcome.expect("expected a success outcome");
    assert_eq!(account.id, "123");
    assert_eq!(account.age, 100);
}

#[test]
fn achievement_not_found_yields_documented_error() {
    let session = Session::new("en", None);
    let plan = plan_request(&session, &Endpoint::Achievement(42));
    assert_eq!(plan.url, "https://api.guildwars2.com/v2/achievements?id=42");
    let transport = MockTransport {
        expected_bearer: None,
        status: 404,
        body: "{\"text\":\"achievement not found\"}",
    };
    let (status, body) = transport.get(&plan);
    let outcome = parse_response(
        status,
        body.as_str(),
        plan.valid,
        plan.invalid,
        |b: &str| serde_json::from_str::<serde_json::Value>(b).ok(),
    );
    match outcome {
        Err(DispatchError::Api(e)) => assert_eq!(e.text(), "achievement not found"),
        other => panic!("expected a documented error, got {:?}", other),
    }
}

#[test]
fn repeated_get_against_fixed_transport_is_idempotent() {
    let session = Session::new("en", None);
    let transport = MockTransport {
        expected_bearer: None,
        status: 206,
        body: "[{\"id\":1},{\"id\":3}]",
    };
    let mut outcomes: Vec<Result<serde_json::Value, DispatchError>> = Vec::new();
    for _ in 0..2 {
        let plan = plan_request(&session, &Endpoint::Achievements(vec![1, 3, 999999]));
        let (status, body) = transport.get(&plan);
        outcomes.push(parse_response(
            status,
            body.as_str(),
            plan.valid,
            plan.invalid,
            |b: &str| serde_json::from_str::<serde_json::Value>(b).ok(),
        ));
    }
    assert!(outcomes[0].is_ok());
    assert_eq!(outcomes[0], outcomes[1]);
}
