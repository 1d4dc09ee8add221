use rusty_spacetraders::agent::init_player_agent;
use rusty_spacetraders::api::{
    get_traders_api, init_traders_api, ApiRequest, Method, RemoteOperation,
};
use rusty_spacetraders::cli::all_commands;
use rusty_spacetraders::helpers::{
    act_on_req_result, checked_location_split, location_split, no_token_error,
};
use rusty_spacetraders::json::{text_at2, text_at3};
use rusty_spacetraders::response::{api_failure, classify, Cause, Exchange, Failure};
use rusty_spacetraders::session::{reset_local_status, Session};
use serde_json::{Number, Value};

fn session() -> Session {
    reset_local_status("snark".to_string(), "tkn1".to_string())
}

fn object(members: Vec<(&str, Value)>) -> Value {
    let mut map = serde_json::Map::new();
    for (key, value) in members {
        map.insert(key.to_string(), value);
    }
    Value::Object(map)
}

fn text(s: &str) -> Value {
    Value::String(s.to_string())
}

fn assert_read(request: &ApiRequest, url: &str) {
    assert_eq!(request.method, Method::Get);
    assert_eq!(request.url, url);
    assert_eq!(request.bearer, Some("tkn1".to_string()));
    assert_eq!(request.body, None);
}

#[test]
fn api_addresses() {
    let api = get_traders_api();
    assert_eq!(api.api_url_root(), "https://api.spacetraders.io/v2/");
    assert_eq!(api.api_suburl_register(), "register");
    assert_eq!(api.api_suburl_status(), "my/agent");
    assert_eq!(api.api_suburl_location(), "systems");
    assert_eq!(api.api_suburl_contracts(), "my/contracts");
    assert_eq!(init_traders_api().api_url_root(), "https://api.spacetraders.io/v2/");
}

#[test]
fn status_request() {
    let api = get_traders_api();
    assert_read(&api.remote_status_req(&session()), "https://api.spacetraders.io/v2/my/agent");
}

#[test]
fn register_request_names_callsign_and_faction() {
    let request = get_traders_api().reg_agent_req("snark");
    assert_eq!(request.method, Method::Post);
    assert_eq!(request.url, "https://api.spacetraders.io/v2/register");
    assert_eq!(request.bearer, None);
    assert_eq!(
        request.body,
        Some(vec![
            ("symbol".to_string(), "snark".to_string()),
            ("faction".to_string(), "COSMIC".to_string()),
        ])
    );
    assert_eq!(
        request.headers(),
        vec![
            ("Content-Type".to_string(), "application/json".to_string()),
            ("Accept".to_string(), "application/json".to_string()),
        ]
    );
}

#[test]
fn location_requests() {
    let api = get_traders_api();
    let tup = ("X1-DF55".to_string(), "X1-DF55-20250Z".to_string());
    assert_read(
        &api.loc_waypoint_req(&session(), tup),
        "https://api.spacetraders.io/v2/systems/X1-DF55/waypoints/X1-DF55-20250Z",
    );
    assert_read(
        &api.loc_system_req(&session(), "X1-VS75"),
        "https://api.spacetraders.io/v2/systems/X1-VS75/waypoints",
    );
}

#[test]
fn contract_requests() {
    let api = get_traders_api();
    let id = "clhzd3zrx1sufs60dc58k5vyj".to_string();
    assert_read(
        &api.contract_data_req(&session(), None),
        "https://api.spacetraders.io/v2/my/contracts",
    );
    assert_read(
        &api.contract_data_req(&session(), Some(&id)),
        "https://api.spacetraders.io/v2/my/contracts/clhzd3zrx1sufs60dc58k5vyj",
    );
    assert_read(
        &api.contract_req(&session(), Some(&id)),
        "https://api.spacetraders.io/v2/my/contracts/clhzd3zrx1sufs60dc58k5vyj",
    );
    let accept = api.contract_interact_req(&session(), &id, "accept", Vec::new());
    assert_eq!(accept.method, Method::Post);
    assert_eq!(
        accept.url,
        "https://api.spacetraders.io/v2/my/contracts/clhzd3zrx1sufs60dc58k5vyj/accept"
    );
    assert_eq!(accept.bearer, Some("tkn1".to_string()));
    assert_eq!(accept.body, Some(Vec::new()));
    let fulfill = api.contract_interact_req(&session(), &id, "fulfill", Vec::new());
    assert_eq!(
        fulfill.url,
        "https://api.spacetraders.io/v2/my/contracts/clhzd3zrx1sufs60dc58k5vyj/fulfill"
    );
}

#[test]
fn authorised_request_carries_the_bearer_header() {
    let request = get_traders_api().remote_status_req(&session());
    assert_eq!(
        request.headers(),
        vec![
            ("Content-Type".to_string(), "application/json".to_string()),
            ("Accept".to_string(), "application/json".to_string()),
            ("Authorization".to_string(), "Bearer tkn1".to_string()),
        ]
    );
}

#[test]
fn agent_requests() {
    let api = get_traders_api();
    let agent = init_player_agent("snark".to_string(), "tkn1".to_string());
    assert_eq!(agent.callsign(), "snark");
    assert_eq!(agent.token(), "tkn1");
    assert_read(&agent.get_agent_status(&api), "https://api.spacetraders.io/v2/my/agent");
    let register = agent.register_new_agent(&api);
    assert_eq!(register.url, "https://api.spacetraders.io/v2/register");
    assert_eq!(register.bearer, None);
}

#[test]
fn location_split_example() {
    assert_eq!(
        location_split("X1-DF55-20250Z"),
        ("X1-DF55".to_string(), "X1-DF55-20250Z".to_string())
    );
}

#[test]
fn location_split_drops_quotation_marks() {
    assert_eq!(
        location_split("\"X1-DF55-20250Z\""),
        ("X1-DF55".to_string(), "X1-DF55-20250Z".to_string())
    );
    assert_eq!(location_split("X1-DF55"), ("X1-DF55".to_string(), "X1-DF55".to_string()));
    assert_eq!(location_split("-"), ("-".to_string(), "-".to_string()));
}

#[test]
fn checked_location_split_refuses_a_text_without_hyphen() {
    assert_eq!(checked_location_split("null"), None);
    assert_eq!(checked_location_split(""), None);
    assert_eq!(
        checked_location_split("X1-DF55-20250Z"),
        Some(("X1-DF55".to_string(), "X1-DF55-20250Z".to_string()))
    );
}

#[test]
fn no_token_error_is_a_precondition_failure() {
    let failure = no_token_error().unwrap_err();
    assert_eq!(failure.message, "No token found. Please login first.");
    assert_eq!(failure.cause, Cause::PreconditionFailure);
    assert_eq!(failure.to_text(), "No token found. Please login first.");
}

#[test]
fn classifier_success_on_200() {
    let api = get_traders_api();
    let result = api.check_response(200, "{\"data\":{\"symbol\":\"X\"}}", "Error");
    let expected = object(vec![("data", object(vec![("symbol", text("X"))]))]);
    assert_eq!(result.unwrap(), expected);
}

#[test]
fn classifier_success_on_201() {
    let api = get_traders_api();
    let result = api.check_response(201, " [1, 2] ", "Error");
    let expected = Value::Array(vec![Value::Number(Number::from(1)), Value::Number(Number::from(2))]);
    assert_eq!(result.unwrap(), expected);
}

#[test]
fn classifier_failure_on_422() {
    let api = get_traders_api();
    let failure = api
        .check_response(
            422,
            "{\"error\":{\"message\":\"symbol already exists\"}}",
            "Error registering new agent",
        )
        .unwrap_err();
    assert!(failure.message.contains("symbol already exists"));
    assert_eq!(failure.message, "Error registering new agent - symbol already exists");
    assert_eq!(failure.cause, Cause::ApiError);
}

#[test]
fn classifier_does_not_look_at_the_body_for_the_kind() {
    let api = get_traders_api();
    let body = "{\"error\":{\"code\":422,\"message\":\"x\"}}";
    assert!(api.check_response(200, body, "E").is_ok());
    for status in [0u16, 199, 202, 204, 301, 400, 401, 404, 422, 500, 65535] {
        let failure = api.check_response(status, body, "E").unwrap_err();
        assert_eq!(failure.cause, Cause::ApiError);
        assert_eq!(failure.message, "E - x");
    }
}

#[test]
fn classifier_failure_without_message_member() {
    let api = get_traders_api();
    let failure = api.check_response(500, "{\"data\":1}", "Error getting remote status").unwrap_err();
    assert_eq!(failure.message, "Error getting remote status - null");
    let failure = api.check_response(500, "[]", "E").unwrap_err();
    assert_eq!(failure.message, "E - null");
    let failure = api.check_response(404, "{\"error\":{\"message\":{\"a\":\"b\"}}}", "E").unwrap_err();
    assert_eq!(failure.message, "E - {a:b}");
}

#[test]
fn classifier_malformed_body() {
    let api = get_traders_api();
    for status in [200u16, 201, 404] {
        let failure = api.check_response(status, "<html>", "Error").unwrap_err();
        assert_eq!(failure.cause, Cause::MalformedResponse);
        assert_eq!(failure.message, "expected value at line 1 column 1");
    }
    let failure = api.check_response(200, "", "Error").unwrap_err();
    assert_eq!(failure.message, "EOF while parsing a value at line 1 column 0");
}

#[test]
fn classifier_transport_failure() {
    let api = get_traders_api();
    let exchange = Exchange::Unreachable { message: "connection refused".to_string() };
    let failure = api.check_exchange(exchange, "Error").unwrap_err();
    assert_eq!(failure.cause, Cause::TransportFailure);
    assert_eq!(failure.message, "connection refused");
    let exchange = Exchange::Reply { status: 200, body: "true".to_string() };
    assert_eq!(api.check_exchange(exchange, "Error").unwrap(), Value::Bool(true));
}

#[test]
fn classify_takes_the_result_of_reading() {
    let doc = object(vec![("error", object(vec![("message", text("no \"such\" thing"))]))]);
    let failure = classify(400, Ok(doc), "E").unwrap_err();
    assert_eq!(failure.message, "E - no \\such\\ thing");
    assert_eq!(classify(200, Ok(Value::Null), "E").unwrap(), Value::Null);
    let failure = api_failure("Label", "\"quoted\"");
    assert_eq!(failure.message, "Label - quoted");
    assert_eq!(failure.cause, Cause::ApiError);
}

#[test]
fn member_texts() {
    let doc = object(vec![(
        "data",
        object(vec![
            ("token", text("tkn1")),
            ("agent", object(vec![("symbol", text("SNARK"))])),
            ("credits", Value::Number(Number::from(5))),
        ]),
    )]);
    assert_eq!(text_at2(&doc, "none", "token"), "null");
    assert_eq!(text_at2(&doc, "data", "token"), "\"tkn1\"");
    assert_eq!(text_at2(&doc, "data", "credits"), "5");
    assert_eq!(text_at3(&doc, "data", "agent", "symbol"), "\"SNARK\"");
    assert_eq!(text_at3(&doc, "data", "token", "symbol"), "null");
    assert_eq!(text_at2(&doc, "data", "agent"), "{\"symbol\":\"SNARK\"}");
}

#[test]
fn act_on_req_result_reports_the_data() {
    let doc = object(vec![("data", object(vec![("symbol", text("X"))])), ("meta", Value::Null)]);
    let report = act_on_req_result(Ok(doc), "Retrieval successful!", true).unwrap();
    assert_eq!(report.headline, "Retrieval successful!");
    assert_eq!(report.data, Some(object(vec![("symbol", text("X"))])));
    let report = act_on_req_result(Ok(text("x")), "Done", false).unwrap();
    assert_eq!(report.headline, "Done");
    assert_eq!(report.data, None);
    let report = act_on_req_result(Ok(text("x")), "Done", true).unwrap();
    assert_eq!(report.data, Some(Value::Null));
}

#[test]
fn act_on_req_result_hands_a_failure_on() {
    let failure = Failure::new("it broke", Cause::LocalIOFailure);
    let failure = act_on_req_result(Err(failure), "Done", true).unwrap_err();
    assert_eq!(failure.message, "it broke");
    assert_eq!(failure.cause, Cause::LocalIOFailure);
}

#[test]
fn command_words() {
    let words = all_commands();
    assert_eq!(words.sc_status, "status");
    assert_eq!(words.sc_new, "new");
    assert_eq!(words.sc_login, "login");
    assert_eq!(words.sc_location, "location");
    assert_eq!(words.sc_contract, "contract");
    assert_eq!(words.arg_local, ("local", "id_local", 'l'));
    assert_eq!(words.arg_remote, ("remote", "id_remote", 'r'));
    assert_eq!(words.arg_callsign, ("callsign", "id_callsign", 'c'));
    assert_eq!(words.arg_waypoint, ("waypoint", "id_waypoint", 'w'));
    assert_eq!(words.arg_system, ("system", "id_system", 's'));
    assert_eq!(words.arg_id, ("id", "id_id", 'i'));
    assert_eq!(words.arg_accept, ("accept", "id_accept", 'a'));
    assert_eq!(words.arg_fulfill, ("fulfill", "id_fulfill", 'f'));
}

#[test]
fn request_of_each_operation() {
    let api = get_traders_api();
    let root = "https://api.spacetraders.io/v2/";
    let id = "c1".to_string();
    let cases: Vec<(RemoteOperation, Method, String, bool, Option<usize>)> = vec![
        (RemoteOperation::GetAgentStatus, Method::Get, format!("{}my/agent", root), true, None),
        (
            RemoteOperation::RegisterAgent { callsign: "snark".to_string() },
            Method::Post,
            format!("{}register", root),
            false,
            Some(2),
        ),
        (
            RemoteOperation::GetWaypoint {
                system: "X1-DF55".to_string(),
                waypoint: "X1-DF55-20250Z".to_string(),
            },
            Method::Get,
            format!("{}systems/X1-DF55/waypoints/X1-DF55-20250Z", root),
            true,
            None,
        ),
        (
            RemoteOperation::GetSystemWaypoints { system: "X1-DF55".to_string() },
            Method::Get,
            format!("{}systems/X1-DF55/waypoints", root),
            true,
            None,
        ),
        (RemoteOperation::GetContracts, Method::Get, format!("{}my/contracts", root), true, None),
        (
            RemoteOperation::GetContract { id: id.clone() },
            Method::Get,
            format!("{}my/contracts/c1", root),
            true,
            None,
        ),
        (
            RemoteOperation::AcceptContract { id: id.clone() },
            Method::Post,
            format!("{}my/contracts/c1/accept", root),
            true,
            Some(0),
        ),
        (
            RemoteOperation::FulfillContract { id: id.clone() },
            Method::Post,
            format!("{}my/contracts/c1/fulfill", root),
            true,
            Some(0),
        ),
    ];
    for (operation, method, url, authorised, members) in cases {
        assert_eq!(operation.requires_token(), authorised);
        let request = api.request(&operation, &session()).unwrap();
        assert_eq!(request.method, method);
        assert_eq!(request.url, url);
        assert_eq!(request.bearer.is_some(), authorised);
        assert_eq!(request.body.as_ref().map(|m| m.len()), members);
        assert_eq!(api.request(&operation, &Session::new()).is_none(), authorised);
    }
}
