use rusty_spacetraders::api::{get_traders_api, Method};
use rusty_spacetraders::handler::{
    answer, commit_registration, consent_given, get_status, login_agent, overwrite_status_consent,
    process_command, register_new_agent, reply, view_contract, view_headquarters, view_location,
    Command, Pending, Step,
};
use rusty_spacetraders::response::{Cause, Exchange};
use rusty_spacetraders::session::{read_game, reset_local_status, save_game, Session};
use serde_json::Value;

const ROOT: &str = "https://api.spacetraders.io/v2/";

fn logged_in() -> Session {
    reset_local_status("old".to_string(), "oldtoken".to_string())
}

fn ok(body: &str) -> Exchange {
    Exchange::Reply { status: 200, body: body.to_string() }
}

fn expect_send(step: Step) -> (Method, String, Option<String>, Pending) {
    match step {
        Step::Send { request, pending } => (request.method, request.url, request.bearer, pending),
        other => panic!("expected a request, got {:?}", other),
    }
}

fn expect_failure(step: Step) -> (String, Cause) {
    match step {
        Step::Failed { failure } => (failure.message, failure.cause),
        other => panic!("expected a failure, got {:?}", other),
    }
}

fn expect_ask(step: Step) -> (String, Pending) {
    match step {
        Step::Ask { prompt, pending } => (prompt, pending),
        other => panic!("expected a question, got {:?}", other),
    }
}

fn expect_done(step: Step) -> (String, Option<Value>) {
    match step {
        Step::Done { report } => (report.headline, report.data),
        other => panic!("expected a report, got {:?}", other),
    }
}

fn symbol_data(symbol: &str) -> Value {
    let mut map = serde_json::Map::new();
    map.insert("symbol".to_string(), Value::String(symbol.to_string()));
    Value::Object(map)
}

#[test]
fn local_status_needs_no_token() {
    let api = get_traders_api();
    let session = Session::new();
    match get_status(&api, &session, true, false) {
        Step::ShowLocal { callsign, token } => {
            assert_eq!(callsign, "");
            assert_eq!(token, "");
        },
        other => panic!("expected the stored status, got {:?}", other),
    }
    match process_command(&api, &Command::Status { local: true, remote: false }, &logged_in()) {
        Step::ShowLocal { callsign, token } => {
            assert_eq!(callsign, "old");
            assert_eq!(token, "oldtoken");
        },
        other => panic!("expected the stored status, got {:?}", other),
    }
}

#[test]
fn remote_status_needs_a_token() {
    let api = get_traders_api();
    let (message, cause) = expect_failure(get_status(&api, &Session::new(), false, false));
    assert_eq!(message, "No token found. Please login first.");
    assert_eq!(cause, Cause::PreconditionFailure);
    let (message, _) = expect_failure(get_status(&api, &Session::new(), false, true));
    assert_eq!(message, "No token found. Please login first.");
}

#[test]
fn remote_status_is_one_request_and_keeps_the_session() {
    let api = get_traders_api();
    let mut session = logged_in();
    let before = save_game(&session);
    let (method, url, bearer, pending) = expect_send(get_status(&api, &session, false, true));
    assert_eq!(method, Method::Get);
    assert_eq!(url, format!("{}my/agent", ROOT));
    assert_eq!(bearer, Some("oldtoken".to_string()));
    let step = reply(&api, pending, ok("{\"data\":{\"symbol\":\"OLD\"}}"), &mut session);
    let (headline, data) = expect_done(step);
    assert_eq!(headline, "Retrieval successful!");
    assert_eq!(data, Some(symbol_data("OLD")));
    assert_eq!(save_game(&session), before);
}

#[test]
fn remote_status_failure_is_handed_on() {
    let api = get_traders_api();
    let mut session = logged_in();
    let (_, _, _, pending) = expect_send(get_status(&api, &session, false, false));
    let exchange = Exchange::Reply {
        status: 401,
        body: "{\"error\":{\"message\":\"Token is invalid\"}}".to_string(),
    };
    let (message, cause) = expect_failure(reply(&api, pending, exchange, &mut session));
    assert_eq!(message, "Error getting remote status - Token is invalid");
    assert_eq!(cause, Cause::ApiError);
}

#[test]
fn registration_stores_callsign_and_token() {
    let api = get_traders_api();
    let mut session = Session::new();
    let step = process_command(&api, &Command::New { callsign: "snark".to_string() }, &session);
    let (method, url, bearer, pending) = expect_send(step);
    assert_eq!(method, Method::Post);
    assert_eq!(url, format!("{}register", ROOT));
    assert_eq!(bearer, None);
    let body = "{\"data\":{\"token\":\"tkn1\",\"agent\":{\"symbol\":\"SNARK\"}}}";
    let exchange = Exchange::Reply { status: 201, body: body.to_string() };
    let (headline, _) = expect_done(reply(&api, pending, exchange, &mut session));
    assert_eq!(headline, "Registration successful!");
    assert_eq!(session.len(), 2);
    assert_eq!(session.get("callsign").cloned(), Some("snark".to_string()));
    assert_eq!(session.get("token").cloned(), Some("tkn1".to_string()));
    let persisted = read_game(&save_game(&session));
    assert_eq!(persisted.get("callsign").cloned(), Some("snark".to_string()));
    assert_eq!(persisted.get("token").cloned(), Some("tkn1".to_string()));
}

#[test]
fn registration_failure_leaves_the_session() {
    let api = get_traders_api();
    let mut session = logged_in();
    let before = save_game(&session);
    let pending = Pending::Registration { callsign: "snark".to_string() };
    let exchange = Exchange::Reply {
        status: 422,
        body: "{\"error\":{\"message\":\"symbol already exists\"}}".to_string(),
    };
    let (message, cause) = expect_failure(reply(&api, pending, exchange, &mut session));
    assert_eq!(message, "Error registering new agent - symbol already exists");
    assert_eq!(cause, Cause::ApiError);
    assert_eq!(save_game(&session), before);
}

#[test]
fn registration_with_another_symbol_is_refused() {
    let api = get_traders_api();
    let mut session = logged_in();
    let before = save_game(&session);
    let pending = Pending::Registration { callsign: "snark".to_string() };
    let body = "{\"data\":{\"token\":\"tkn1\",\"agent\":{\"symbol\":\"snark\"}}}";
    let (message, cause) = expect_failure(reply(&api, pending, ok(body), &mut session));
    assert_eq!(message, "Error registering new agent - unexpected symbol snark");
    assert_eq!(cause, Cause::MalformedResponse);
    assert_eq!(save_game(&session), before);
}

#[test]
fn commit_registration_compares_the_symbol() {
    let mut session = logged_in();
    assert!(!commit_registration(&mut session, "snark", "SNARK", "SNARKY", "tkn1"));
    assert_eq!(session.get("callsign").cloned(), Some("old".to_string()));
    assert!(commit_registration(&mut session, "snark", "SNARK", "SNARK", "tkn1"));
    assert_eq!(session.len(), 2);
    assert_eq!(session.get("callsign").cloned(), Some("snark".to_string()));
    assert_eq!(session.get("token").cloned(), Some("tkn1".to_string()));
}

#[test]
fn registration_asks_before_a_callsign_is_replaced() {
    let api = get_traders_api();
    let session = logged_in();
    let (prompt, pending) = expect_ask(register_new_agent(&api, &session, "snark"));
    assert_eq!(prompt, "Current local callsign old will be overwritten. Continue? (y/n)");
    let (method, url, _, _) = expect_send(answer(&api, pending, "y\n", &session));
    assert_eq!(method, Method::Post);
    assert_eq!(url, format!("{}register", ROOT));
    let (_, pending) = expect_ask(register_new_agent(&api, &session, "snark"));
    let (message, cause) = expect_failure(answer(&api, pending, "n\n", &session));
    assert_eq!(message, "Aborting...");
    assert_eq!(cause, Cause::PreconditionFailure);
}

#[test]
fn consent_is_the_letter_y() {
    assert!(consent_given("y"));
    assert!(consent_given(" y\r\n"));
    assert!(!consent_given("Y"));
    assert!(!consent_given("yes"));
    assert!(!consent_given("y y"));
    assert!(!consent_given(""));
    assert_eq!(overwrite_status_consent(&Session::new()), None);
    assert_eq!(
        overwrite_status_consent(&logged_in()),
        Some("Current local callsign old will be overwritten. Continue? (y/n)".to_string())
    );
}

#[test]
fn failed_login_leaves_the_session() {
    let api = get_traders_api();
    let mut session = logged_in();
    let before = save_game(&session);
    let (prompt, pending) = expect_ask(login_agent(&api, &session, "snark"));
    assert_eq!(prompt, "Enter token: ");
    let (_, pending) = expect_ask(answer(&api, pending, " newtoken \n", &session));
    let (method, url, bearer, pending) = expect_send(answer(&api, pending, "y", &session));
    assert_eq!(method, Method::Get);
    assert_eq!(url, format!("{}my/agent", ROOT));
    assert_eq!(bearer, Some("newtoken".to_string()));
    let exchange = Exchange::Reply {
        status: 401,
        body: "{\"error\":{\"message\":\"Token is invalid\"}}".to_string(),
    };
    let (message, cause) = expect_failure(reply(&api, pending, exchange, &mut session));
    assert_eq!(message, "Error getting remote status - Token is invalid");
    assert_eq!(cause, Cause::ApiError);
    assert_eq!(save_game(&session), before);
    assert_eq!(session.get("token").cloned(), Some("oldtoken".to_string()));
}

#[test]
fn failed_login_without_reply_leaves_the_session() {
    let api = get_traders_api();
    let mut session = logged_in();
    let before = save_game(&session);
    let pending = Pending::Verification { callsign: "snark".to_string(), token: "t".to_string() };
    let exchange = Exchange::Unreachable { message: "timed out".to_string() };
    let (message, cause) = expect_failure(reply(&api, pending, exchange, &mut session));
    assert_eq!(message, "timed out");
    assert_eq!(cause, Cause::TransportFailure);
    assert_eq!(save_game(&session), before);
}

#[test]
fn successful_login_replaces_the_session() {
    let api = get_traders_api();
    let mut session = logged_in();
    session.insert("extra".to_string(), "x".to_string());
    let step = process_command(&api, &Command::Login { callsign: "snark".to_string() }, &session);
    let (_, pending) = expect_ask(step);
    let (_, pending) = expect_ask(answer(&api, pending, "newtoken", &session));
    let (_, _, _, pending) = expect_send(answer(&api, pending, "y", &session));
    let step = reply(&api, pending, ok("{\"data\":{\"symbol\":\"SNARK\"}}"), &mut session);
    let (headline, data) = expect_done(step);
    assert_eq!(headline, "Login successful!");
    assert_eq!(data, Some(symbol_data("SNARK")));
    assert_eq!(save_game(&session), "callsign=snark\ntoken=newtoken\n");
}

#[test]
fn first_login_asks_for_no_consent() {
    let api = get_traders_api();
    let session = Session::new();
    let (_, pending) = expect_ask(login_agent(&api, &session, "snark"));
    let (_, _, bearer, _) = expect_send(answer(&api, pending, "tok\n", &session));
    assert_eq!(bearer, Some("tok".to_string()));
}

#[test]
fn location_of_a_waypoint() {
    let api = get_traders_api();
    let mut session = logged_in();
    let waypoint = Some("X1-DF55-20250Z".to_string());
    let (method, url, bearer, pending) =
        expect_send(view_location(&api, &session, &waypoint, &None));
    assert_eq!(method, Method::Get);
    assert_eq!(url, format!("{}systems/X1-DF55/waypoints/X1-DF55-20250Z", ROOT));
    assert_eq!(bearer, Some("oldtoken".to_string()));
    let exchange = Exchange::Reply {
        status: 404,
        body: "{\"error\":{\"message\":\"Waypoint not found\"}}".to_string(),
    };
    let (message, _) = expect_failure(reply(&api, pending, exchange, &mut session));
    assert_eq!(message, "Error getting waypoint data - Waypoint not found");
}

#[test]
fn location_of_a_system() {
    let api = get_traders_api();
    let mut session = logged_in();
    let system = Some("X1-VS75".to_string());
    let (_, url, _, pending) = expect_send(view_location(&api, &session, &None, &system));
    assert_eq!(url, format!("{}systems/X1-VS75/waypoints", ROOT));
    let exchange = Exchange::Reply { status: 500, body: "{}".to_string() };
    let (message, _) = expect_failure(reply(&api, pending, exchange, &mut session));
    assert_eq!(message, "Error getting system data - null");
}

#[test]
fn location_without_argument_goes_by_the_headquarters() {
    let api = get_traders_api();
    let mut session = logged_in();
    let command = Command::Location { waypoint: None, system: None };
    let (_, url, _, pending) = expect_send(process_command(&api, &command, &session));
    assert_eq!(url, format!("{}my/agent", ROOT));
    let body = "{\"data\":{\"symbol\":\"OLD\",\"headquarters\":\"X1-DF55-20250Z\"}}";
    let (method, url, bearer, pending) = expect_send(reply(&api, pending, ok(body), &mut session));
    assert_eq!(method, Method::Get);
    assert_eq!(url, format!("{}systems/X1-DF55/waypoints/X1-DF55-20250Z", ROOT));
    assert_eq!(bearer, Some("oldtoken".to_string()));
    let (headline, _) = expect_done(reply(&api, pending, ok("{\"data\":{}}"), &mut session));
    assert_eq!(headline, "Retrieval successful!");
}

#[test]
fn location_without_headquarters_in_the_status_fails() {
    let api = get_traders_api();
    let mut session = logged_in();
    let step = reply(&api, Pending::Headquarters, ok("{\"data\":{}}"), &mut session);
    let (message, cause) = expect_failure(step);
    assert_eq!(message, "Not a waypoint: null");
    assert_eq!(cause, Cause::MalformedResponse);
    let step = reply(&api, Pending::Headquarters, ok("not json"), &mut session);
    let (_, cause) = expect_failure(step);
    assert_eq!(cause, Cause::MalformedResponse);
}

#[test]
fn location_refuses_what_is_no_waypoint() {
    let api = get_traders_api();
    let step = view_location(&api, &logged_in(), &Some("nowhere".to_string()), &None);
    let (message, cause) = expect_failure(step);
    assert_eq!(message, "Not a waypoint: nowhere");
    assert_eq!(cause, Cause::PreconditionFailure);
    let step = view_location(&api, &Session::new(), &Some("X1-DF55-20250Z".to_string()), &None);
    let (message, _) = expect_failure(step);
    assert_eq!(message, "No token found. Please login first.");
}

#[test]
fn contract_without_argument_lists_all_in_one_request() {
    let api = get_traders_api();
    let mut session = logged_in();
    let command = Command::Contract { id: None, accept: None, fulfill: None };
    let (method, url, bearer, pending) = expect_send(process_command(&api, &command, &session));
    assert_eq!(method, Method::Get);
    assert_eq!(url, format!("{}my/contracts", ROOT));
    assert_eq!(bearer, Some("oldtoken".to_string()));
    let (headline, _) = expect_done(reply(&api, pending, ok("{\"data\":[]}"), &mut session));
    assert_eq!(headline, "Retrieval successful!");
}

#[test]
fn contract_by_id_accept_and_fulfill() {
    let api = get_traders_api();
    let mut session = logged_in();
    let id = Some("c1".to_string());
    let (method, url, _, _) = expect_send(view_contract(&api, &session, &id, &None, &None));
    assert_eq!(method, Method::Get);
    assert_eq!(url, format!("{}my/contracts/c1", ROOT));
    let step = view_contract(&api, &session, &None, &id, &None);
    match step {
        Step::Send { request, pending } => {
            assert_eq!(request.method, Method::Post);
            assert_eq!(request.url, format!("{}my/contracts/c1/accept", ROOT));
            assert_eq!(request.body, Some(Vec::new()));
            let (headline, _) = expect_done(reply(&api, pending, ok("{}"), &mut session));
            assert_eq!(headline, "Contract accepted!");
        },
        other => panic!("expected a request, got {:?}", other),
    }
    let (method, url, _, pending) = expect_send(view_contract(&api, &session, &None, &None, &id));
    assert_eq!(method, Method::Post);
    assert_eq!(url, format!("{}my/contracts/c1/fulfill", ROOT));
    let exchange = Exchange::Reply {
        status: 400,
        body: "{\"error\":{\"message\":\"Contract terms not met\"}}".to_string(),
    };
    let (message, _) = expect_failure(reply(&api, pending, exchange, &mut session));
    assert_eq!(message, "Error interacting with contract - Contract terms not met");
}

#[test]
fn contract_needs_a_token() {
    let api = get_traders_api();
    let step = view_contract(&api, &Session::new(), &None, &None, &None);
    let (message, cause) = expect_failure(step);
    assert_eq!(message, "No token found. Please login first.");
    assert_eq!(cause, Cause::PreconditionFailure);
}

#[test]
fn missing_command_and_unexpected_input_fail() {
    let api = get_traders_api();
    let mut session = logged_in();
    let (message, _) = expect_failure(process_command(&api, &Command::Missing, &session));
    assert_eq!(message, "No command found.");
    let (message, _) = expect_failure(answer(&api, Pending::Headquarters, "y", &session));
    assert_eq!(message, "Unexpected input.");
    let pending = Pending::Token { callsign: "snark".to_string() };
    let (message, _) = expect_failure(reply(&api, pending, ok("{}"), &mut session));
    assert_eq!(message, "Unexpected input.");
}

#[test]
fn headquarters_are_named_as_the_status_writes_them() {
    let api = get_traders_api();
    let step = view_headquarters(&api, &logged_in(), "\"X1-DF55-20250Z\"");
    let (_, url, _, _) = expect_send(step);
    assert_eq!(url, format!("{}systems/X1-DF55/waypoints/X1-DF55-20250Z", ROOT));
    let (message, cause) = expect_failure(view_headquarters(&api, &logged_in(), "null"));
    assert_eq!(message, "Not a waypoint: null");
    assert_eq!(cause, Cause::MalformedResponse);
    let (message, _) = expect_failure(view_headquarters(&api, &Session::new(), "X1-DF55-1"));
    assert_eq!(message, "No token found. Please login first.");
}
