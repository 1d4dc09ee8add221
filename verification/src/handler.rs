//! The command router: what each command does, step by step.
//!
//! The router neither prompts nor sends. It says what is to be done next, a
//! question to ask or a request to send, and is told what came of it: the
//! line that the user typed, or what the exchange with the server gave. The
//! session changes only when a registration or a login has succeeded.

use crate::api::{
    contract_action_request, contract_url, contracts_url, member_views, read_request,
    register_request, status_url, system_url, waypoint_url, ApiRequest, ApiView, RequestView,
    TradersApi,
};
use crate::helpers::{
    act_on_req_result, acted_on, checked_location_split, is_location, no_token_error,
    no_token_failure, quote, report_of, system_of, waypoint_of, Report, ReportView,
};
use crate::json::{member_text2, member_text3, text_at2, text_at3};
use crate::response::{
    classified_exchange, outcome_view, Cause, ClassifiedResult, Exchange, Failure, FailureView,
};
use crate::session::{
    callsign_key, check_local_token, fresh_session, has_token, reset_local_status, token_key,
    value_or_empty, Session,
};
use crate::text::{
    same_text, to_uppercase, trim_matches, trim_space, trimmed, uppercase_of, CharClass,
};
use vstd::prelude::*;
use vstd::string::*;

verus! {

/// A command with its arguments.
#[derive(Debug)]
pub enum Command {
    /// Show the status: the stored one if `local` is set, else the server's.
    Status { local: bool, remote: bool },
    /// Register a new agent.
    New { callsign: String },
    /// Take over an agent that exists, by its token.
    Login { callsign: String },
    /// Describe a waypoint, the waypoints of a system, or the headquarters.
    Location { waypoint: Option<String>, system: Option<String> },
    /// Describe, accept or fulfil a contract, or list all.
    Contract { id: Option<String>, accept: Option<String>, fulfill: Option<String> },
    /// No command.
    Missing,
}

/// What the router waits for.
#[derive(Debug)]
pub enum Pending {
    /// The token, typed by the user who logs in.
    Token { callsign: String },
    /// The answer to the question whether the stored callsign may go. With
    /// the token that was typed a login follows, without one a registration.
    Consent { callsign: String, typed: Option<String> },
    /// The reply to a registration.
    Registration { callsign: String },
    /// The reply to the status request that tries a token.
    Verification { callsign: String, token: String },
    /// The reply to the status request that looks for the headquarters.
    Headquarters,
    /// The reply that ends the command.
    Reply { label: String, headline: String },
}

/// What the router waits for, as texts.
pub enum PendingView {
    Token { callsign: Seq<char> },
    Consent { callsign: Seq<char>, typed: Option<Seq<char>> },
    Registration { callsign: Seq<char> },
    Verification { callsign: Seq<char>, token: Seq<char> },
    Headquarters,
    Reply { label: Seq<char>, headline: Seq<char> },
}

/// A text that may be absent.
pub open spec fn opt_text(o: Option<String>) -> Option<Seq<char>> {
    match o {
        Some(s) => Some(s@),
        None => None,
    }
}

impl View for Pending {
    type V = PendingView;

    open spec fn view(&self) -> PendingView {
        match *self {
            Pending::Token { callsign } => PendingView::Token { callsign: callsign@ },
            Pending::Consent { callsign, typed } => PendingView::Consent {
                callsign: callsign@,
                typed: opt_text(typed),
            },
            Pending::Registration { callsign } => PendingView::Registration {
                callsign: callsign@,
            },
            Pending::Verification { callsign, token } => PendingView::Verification {
                callsign: callsign@,
                token: token@,
            },
            Pending::Headquarters => PendingView::Headquarters,
            Pending::Reply { label, headline } => PendingView::Reply {
                label: label@,
                headline: headline@,
            },
        }
    }
}

/// What is to be done next.
#[derive(Debug)]
pub enum Step {
    /// Ask the user and hand the answer to `answer`.
    Ask { prompt: String, pending: Pending },
    /// Send the request and hand what came of it to `reply`.
    Send { request: ApiRequest, pending: Pending },
    /// The command succeeded: show the stored callsign and token.
    ShowLocal { callsign: String, token: String },
    /// The command succeeded: show the report.
    Done { report: Report },
    /// The command failed.
    Failed { failure: Failure },
}

/// What is to be done next, as texts.
pub enum StepView {
    Ask { prompt: Seq<char>, pending: PendingView },
    Send { request: RequestView, pending: PendingView },
    ShowLocal { callsign: Seq<char>, token: Seq<char> },
    Done { report: ReportView },
    Failed { failure: FailureView },
}

impl View for Step {
    type V = StepView;

    open spec fn view(&self) -> StepView {
        match *self {
            Step::Ask { prompt, pending } => StepView::Ask { prompt: prompt@, pending: pending@ },
            Step::Send { request, pending } => StepView::Send {
                request: request@,
                pending: pending@,
            },
            Step::ShowLocal { callsign, token } => StepView::ShowLocal {
                callsign: callsign@,
                token: token@,
            },
            Step::Done { report } => StepView::Done { report: report@ },
            Step::Failed { failure } => StepView::Failed { failure: failure@ },
        }
    }
}

impl StepView {
    /// Whether the command ends here.
    pub open spec fn is_end(self) -> bool {
        self is ShowLocal || self is Done || self is Failed
    }
}

/// What is said of a failed attempt to read the agent's status.
pub open spec fn status_label() -> Seq<char> {
    "Error getting remote status"@
}

/// What is said of a failed registration.
pub open spec fn register_label() -> Seq<char> {
    "Error registering new agent"@
}

/// The line shown after a successful retrieval.
pub open spec fn retrieved() -> Seq<char> {
    "Retrieval successful!"@
}

/// The wait for the reply that ends a retrieval.
pub open spec fn last_reply(label: Seq<char>, headline: Seq<char>) -> PendingView {
    PendingView::Reply { label, headline }
}

/// The failure of a command that the user chose not to go on with.
pub open spec fn declined_failure() -> FailureView {
    FailureView { message: "Aborting..."@, cause: Cause::PreconditionFailure }
}

/// The failure of a router that is told what it did not wait for.
pub open spec fn unexpected_failure() -> FailureView {
    FailureView { message: "Unexpected input."@, cause: Cause::PreconditionFailure }
}

/// The failure of a command without a name.
pub open spec fn no_command_failure() -> FailureView {
    FailureView { message: "No command found."@, cause: Cause::PreconditionFailure }
}

/// The failure on a text that names no waypoint.
pub open spec fn no_location_failure(location: Seq<char>, cause: Cause) -> FailureView {
    FailureView { message: "Not a waypoint: "@ + location, cause }
}

/// The failure on a registration whose reply names another agent.
pub open spec fn wrong_symbol_failure(symbol: Seq<char>) -> FailureView {
    FailureView {
        message: "Error registering new agent - unexpected symbol "@ + symbol,
        cause: Cause::MalformedResponse,
    }
}

/// The question to ask before a stored callsign is replaced.
pub open spec fn consent_prompt(callsign: Seq<char>) -> Seq<char> {
    "Current local callsign "@ + callsign + " will be overwritten. Continue? (y/n)"@
}

/// Whether an answer gives consent: it is `y`, white space around it aside.
pub open spec fn consents(answer: Seq<char>) -> bool {
    trimmed(answer, CharClass::Space) == "y"@
}

/// The status command. The stored status is shown without a token and
/// without a request; the server's needs the token.
pub open spec fn status_step(api: ApiView, session: Map<Seq<char>, Seq<char>>, local: bool) -> StepView {
    if local {
        StepView::ShowLocal {
            callsign: value_or_empty(session, callsign_key()),
            token: value_or_empty(session, token_key()),
        }
    } else if !has_token(session) {
        StepView::Failed { failure: no_token_failure() }
    } else {
        StepView::Send {
            request: read_request(status_url(api), session[token_key()]),
            pending: last_reply(status_label(), retrieved()),
        }
    }
}

/// The request of a registration.
pub open spec fn registration_step(api: ApiView, callsign: Seq<char>) -> StepView {
    StepView::Send {
        request: register_request(api, callsign),
        pending: PendingView::Registration { callsign },
    }
}

/// The status request that tries the token of a login.
pub open spec fn verification_step(api: ApiView, callsign: Seq<char>, token: Seq<char>) -> StepView {
    StepView::Send {
        request: read_request(status_url(api), token),
        pending: PendingView::Verification { callsign, token },
    }
}

/// The question that stands before a registration or a login where a
/// callsign is stored, or else the request itself.
pub open spec fn guarded_step(
    api: ApiView,
    session: Map<Seq<char>, Seq<char>>,
    callsign: Seq<char>,
    token: Option<Seq<char>>,
) -> StepView {
    if session.contains_key(callsign_key()) {
        StepView::Ask {
            prompt: consent_prompt(session[callsign_key()]),
            pending: PendingView::Consent { callsign, typed: token },
        }
    } else {
        unguarded_step(api, callsign, token)
    }
}

/// The request of a login, with its token, or of a registration, without.
pub open spec fn unguarded_step(api: ApiView, callsign: Seq<char>, token: Option<Seq<char>>) -> StepView {
    match token {
        Some(t) => verification_step(api, callsign, t),
        None => registration_step(api, callsign),
    }
}

/// The login command: it asks for the token first.
pub open spec fn login_step(callsign: Seq<char>) -> StepView {
    StepView::Ask { prompt: "Enter token: "@, pending: PendingView::Token { callsign } }
}

/// The request for a waypoint by its name, or the failure with the given
/// cause where the text names none.
pub open spec fn waypoint_step(api: ApiView, token: Seq<char>, location: Seq<char>, cause: Cause) -> StepView {
    if is_location(location) {
        StepView::Send {
            request: read_request(
                waypoint_url(api, system_of(location), waypoint_of(location)),
                token,
            ),
            pending: last_reply("Error getting waypoint data"@, retrieved()),
        }
    } else {
        StepView::Failed { failure: no_location_failure(location, cause) }
    }
}

/// The location command: a waypoint where one is given, else the waypoints
/// of a system where one is given, else the headquarters, which the agent's
/// status names.
pub open spec fn location_step(
    api: ApiView,
    session: Map<Seq<char>, Seq<char>>,
    waypoint: Option<Seq<char>>,
    system: Option<Seq<char>>,
) -> StepView {
    if !has_token(session) {
        StepView::Failed { failure: no_token_failure() }
    } else {
        match waypoint {
            Some(w) => waypoint_step(api, session[token_key()], w, Cause::PreconditionFailure),
            None => match system {
                Some(s) => StepView::Send {
                    request: read_request(system_url(api, s), session[token_key()]),
                    pending: last_reply("Error getting system data"@, retrieved()),
                },
                None => StepView::Send {
                    request: read_request(status_url(api), session[token_key()]),
                    pending: PendingView::Headquarters,
                },
            },
        }
    }
}

/// The request that lists all contracts.
pub open spec fn contract_list_step(api: ApiView, token: Seq<char>) -> StepView {
    StepView::Send {
        request: read_request(contracts_url(api), token),
        pending: last_reply("Error getting contract data"@, retrieved()),
    }
}

/// The request that accepts or fulfils a contract, with an empty object.
pub open spec fn contract_action_step(
    api: ApiView,
    token: Seq<char>,
    id: Seq<char>,
    action: Seq<char>,
    headline: Seq<char>,
) -> StepView {
    StepView::Send {
        request: contract_action_request(api, token, id, action, Seq::empty()),
        pending: last_reply("Error interacting with contract"@, headline),
    }
}

/// The contract command: one contract where `id` is given, else the
/// acceptance of one, else the fulfilment of one, else the list of all.
pub open spec fn contract_step(
    api: ApiView,
    session: Map<Seq<char>, Seq<char>>,
    id: Option<Seq<char>>,
    accept: Option<Seq<char>>,
    fulfill: Option<Seq<char>>,
) -> StepView {
    if !has_token(session) {
        StepView::Failed { failure: no_token_failure() }
    } else {
        let token = session[token_key()];
        match id {
            Some(i) => StepView::Send {
                request: read_request(contract_url(api, i), token),
                pending: last_reply("Error getting contract data"@, retrieved()),
            },
            None => match accept {
                Some(i) => contract_action_step(api, token, i, "accept"@, "Contract accepted!"@),
                None => match fulfill {
                    Some(i) => contract_action_step(
                        api,
                        token,
                        i,
                        "fulfill"@,
                        "Contract fulfilled!"@,
                    ),
                    None => contract_list_step(api, token),
                },
            },
        }
    }
}

/// The first step of a command.
pub open spec fn first_step(api: ApiView, command: Command, session: Map<Seq<char>, Seq<char>>) -> StepView {
    match command {
        Command::Status { local, remote } => status_step(api, session, local),
        Command::New { callsign } => guarded_step(api, session, callsign@, None),
        Command::Login { callsign } => login_step(callsign@),
        Command::Location { waypoint, system } => location_step(
            api,
            session,
            opt_text(waypoint),
            opt_text(system),
        ),
        Command::Contract { id, accept, fulfill } => contract_step(
            api,
            session,
            opt_text(id),
            opt_text(accept),
            opt_text(fulfill),
        ),
        Command::Missing => StepView::Failed { failure: no_command_failure() },
    }
}

/// The step that follows a line typed by the user.
pub open spec fn answered(
    api: ApiView,
    pending: PendingView,
    line: Seq<char>,
    session: Map<Seq<char>, Seq<char>>,
) -> StepView {
    match pending {
        PendingView::Token { callsign } => guarded_step(
            api,
            session,
            callsign,
            Some(trimmed(line, CharClass::Space)),
        ),
        PendingView::Consent { callsign, typed } => if consents(line) {
            unguarded_step(api, callsign, typed)
        } else {
            StepView::Failed { failure: declined_failure() }
        },
        _ => StepView::Failed { failure: unexpected_failure() },
    }
}

/// The name under which the reply to a registration registered the agent.
pub open spec fn registered_symbol(doc: Seq<char>) -> Seq<char> {
    trimmed(member_text3(doc, "data"@, "agent"@, "symbol"@), quote())
}

/// The token that the reply to a registration gives the agent.
pub open spec fn registered_token(doc: Seq<char>) -> Seq<char> {
    trimmed(member_text2(doc, "data"@, "token"@), quote())
}

/// The session after a registration, and whether it was taken over: it is
/// if the reply names the callsign in upper case, and then the session holds
/// the callsign as it was asked for and the token of the reply.
pub open spec fn registration_commit(
    session: Map<Seq<char>, Seq<char>>,
    callsign: Seq<char>,
    expected: Seq<char>,
    symbol: Seq<char>,
    token: Seq<char>,
) -> (Map<Seq<char>, Seq<char>>, bool) {
    if symbol == expected {
        (session.insert(callsign_key(), callsign).insert(token_key(), token), true)
    } else {
        (session, false)
    }
}

/// The end of a registration: the session and the last step.
pub open spec fn registration_end(
    session: Map<Seq<char>, Seq<char>>,
    callsign: Seq<char>,
    result: Result<Seq<char>, FailureView>,
) -> (Map<Seq<char>, Seq<char>>, StepView) {
    match result {
        Err(failure) => (session, StepView::Failed { failure }),
        Ok(doc) => {
            let commit = registration_commit(
                session,
                callsign,
                uppercase_of(callsign),
                registered_symbol(doc),
                registered_token(doc),
            );
            if commit.1 {
                (
                    commit.0,
                    StepView::Done { report: report_of(doc, "Registration successful!"@, true) },
                )
            } else {
                (session, StepView::Failed { failure: wrong_symbol_failure(registered_symbol(doc)) })
            }
        },
    }
}

/// The end of a login: the session and the last step. The session becomes
/// the one that was tried if the server accepted its token, and stays as it
/// was if not.
pub open spec fn verification_end(
    session: Map<Seq<char>, Seq<char>>,
    callsign: Seq<char>,
    token: Seq<char>,
    result: Result<Seq<char>, FailureView>,
) -> (Map<Seq<char>, Seq<char>>, StepView) {
    match result {
        Err(failure) => (session, StepView::Failed { failure }),
        Ok(doc) => (
            fresh_session(callsign, token),
            StepView::Done { report: report_of(doc, "Login successful!"@, true) },
        ),
    }
}

/// The request for the headquarters, from the text that the agent's status
/// gives for it. A text that names no waypoint is a malformed response.
pub open spec fn headquarters_step(
    api: ApiView,
    session: Map<Seq<char>, Seq<char>>,
    location: Seq<char>,
) -> StepView {
    if !has_token(session) {
        StepView::Failed { failure: no_token_failure() }
    } else {
        waypoint_step(api, session[token_key()], location, Cause::MalformedResponse)
    }
}

/// The step after the status that was asked for the headquarters: the
/// request for the waypoint that its member `headquarters` under `data`
/// names.
pub open spec fn headquarters_end(
    api: ApiView,
    session: Map<Seq<char>, Seq<char>>,
    result: Result<Seq<char>, FailureView>,
) -> StepView {
    match result {
        Err(failure) => StepView::Failed { failure },
        Ok(doc) => headquarters_step(api, session, member_text2(doc, "data"@, "headquarters"@)),
    }
}

/// The last step of a retrieval.
pub open spec fn reply_end(result: Result<Seq<char>, FailureView>, headline: Seq<char>) -> StepView {
    match acted_on(result, headline, true) {
        Ok(report) => StepView::Done { report },
        Err(failure) => StepView::Failed { failure },
    }
}

/// The session and the step that follow what came of a request.
pub open spec fn replied(
    api: ApiView,
    pending: PendingView,
    exchange: Exchange,
    session: Map<Seq<char>, Seq<char>>,
) -> (Map<Seq<char>, Seq<char>>, StepView) {
    match pending {
        PendingView::Registration { callsign } => registration_end(
            session,
            callsign,
            classified_exchange(exchange, register_label()),
        ),
        PendingView::Verification { callsign, token } => verification_end(
            session,
            callsign,
            token,
            classified_exchange(exchange, status_label()),
        ),
        PendingView::Headquarters => (
            session,
            headquarters_end(api, session, classified_exchange(exchange, status_label())),
        ),
        PendingView::Reply { label, headline } => (
            session,
            reply_end(classified_exchange(exchange, label), headline),
        ),
        _ => (session, StepView::Failed { failure: unexpected_failure() }),
    }
}

/// The wait for the reply that ends a command.
fn wait_for_reply(label: &str, headline: &str) -> (r: Pending)
    ensures
        r@ == last_reply(label@, headline@),
{
    Pending::Reply { label: String::from_str(label), headline: String::from_str(headline) }
}

/// The step that fails for want of a token.
fn no_token_step() -> (r: Step)
    ensures
        r@ == (StepView::Failed { failure: no_token_failure() }),
{
    match no_token_error() {
        Err(failure) => Step::Failed { failure },
        Ok(_) => Step::Failed { failure: Failure::new("", Cause::PreconditionFailure) },
    }
}

/// The question to ask before the stored callsign is replaced, where one is
/// stored.
pub fn overwrite_status_consent(game_status: &Session) -> (r: Option<String>)
    ensures
        r.is_some() == game_status@.contains_key(callsign_key()),
        r.is_some() ==> r.unwrap()@ == consent_prompt(game_status@[callsign_key()]),
{
    match game_status.get("callsign") {
        Some(callsign) => {
            let mut prompt = String::from_str("Current local callsign ");
            prompt.append(callsign.as_str());
            prompt.append(" will be overwritten. Continue? (y/n)");
            Some(prompt)
        },
        None => None,
    }
}

/// Whether an answer to that question gives consent.
pub fn consent_given(answer: &str) -> (r: bool)
    ensures
        r == consents(answer@),
{
    let plain = trim_space(answer);
    same_text(plain.as_str(), "y")
}

/// The first step of the status command. With `local` the stored callsign
/// and token are shown, blank where they are missing, and no token is
/// needed. Without it the server is asked, whether `remote` is set or not.
pub fn get_status(api: &TradersApi, game_status: &Session, local: bool, remote: bool) -> (r: Step)
    ensures
        r@ == status_step(api@, game_status@, local),
        local ==> r@ is ShowLocal,
{
    if local {
        Step::ShowLocal {
            callsign: game_status.get_or_empty("callsign"),
            token: game_status.get_or_empty("token"),
        }
    } else if !check_local_token(game_status) {
        no_token_step()
    } else {
        Step::Send {
            request: api.remote_status_req(game_status),
            pending: wait_for_reply("Error getting remote status", "Retrieval successful!"),
        }
    }
}

/// The request of a login, with its token, or of a registration, without.
fn unguarded(api: &TradersApi, callsign: String, token: Option<String>) -> (r: Step)
    ensures
        r@ == unguarded_step(api@, callsign@, opt_text(token)),
{
    match token {
        Some(t) => {
            let candidate = reset_local_status(callsign.clone(), t.clone());
            Step::Send {
                request: api.remote_status_req(&candidate),
                pending: Pending::Verification { callsign, token: t },
            }
        },
        None => Step::Send {
            request: api.reg_agent_req(callsign.as_str()),
            pending: Pending::Registration { callsign },
        },
    }
}

/// The question before a registration or a login, or else the request.
fn guarded(api: &TradersApi, game_status: &Session, callsign: String, token: Option<String>) -> (r:
    Step)
    ensures
        r@ == guarded_step(api@, game_status@, callsign@, opt_text(token)),
{
    match overwrite_status_consent(game_status) {
        Some(prompt) => Step::Ask { prompt, pending: Pending::Consent { callsign, typed: token } },
        None => unguarded(api, callsign, token),
    }
}

/// The first step of a registration: the question whether the stored
/// callsign may go, where one is stored, else the request.
pub fn register_new_agent(api: &TradersApi, game_status: &Session, callsign: &str) -> (r: Step)
    ensures
        r@ == guarded_step(api@, game_status@, callsign@, None),
{
    guarded(api, game_status, String::from_str(callsign), None)
}

/// The first step of a login: the question for the token.
pub fn login_agent(api: &TradersApi, game_status: &Session, callsign: &str) -> (r: Step)
    ensures
        r@ == login_step(callsign@),
{
    Step::Ask {
        prompt: String::from_str("Enter token: "),
        pending: Pending::Token { callsign: String::from_str(callsign) },
    }
}

/// The request for a waypoint by its name, or the failure where the text
/// names none.
fn waypoint_request(api: &TradersApi, game_status: &Session, location: &str, cause: Cause) -> (r:
    Step)
    requires
        game_status@.contains_key(token_key()),
    ensures
        r@ == waypoint_step(api@, game_status@[token_key()], location@, cause),
{
    match checked_location_split(location) {
        Some(sys_waypoint_tup) => Step::Send {
            request: api.loc_waypoint_req(game_status, sys_waypoint_tup),
            pending: wait_for_reply("Error getting waypoint data", "Retrieval successful!"),
        },
        None => {
            let mut message = String::from_str("Not a waypoint: ");
            message.append(location);
            Step::Failed { failure: Failure { message, cause } }
        },
    }
}

/// The request for the headquarters, from the text that the agent's status
/// gives for it.
pub fn view_headquarters(api: &TradersApi, game_status: &Session, location: &str) -> (r: Step)
    ensures
        r@ == headquarters_step(api@, game_status@, location@),
{
    if !check_local_token(game_status) {
        no_token_step()
    } else {
        waypoint_request(api, game_status, location, Cause::MalformedResponse)
    }
}

/// The first step of the location command.
pub fn view_location(
    api: &TradersApi,
    game_status: &Session,
    waypoint: &Option<String>,
    system: &Option<String>,
) -> (r: Step)
    ensures
        r@ == location_step(api@, game_status@, opt_text(*waypoint), opt_text(*system)),
{
    if !check_local_token(game_status) {
        return no_token_step();
    }
    match waypoint {
        Some(w) => waypoint_request(api, game_status, w.as_str(), Cause::PreconditionFailure),
        None => match system {
            Some(s) => Step::Send {
                request: api.loc_system_req(game_status, s.as_str()),
                pending: wait_for_reply("Error getting system data", "Retrieval successful!"),
            },
            None => Step::Send {
                request: api.remote_status_req(game_status),
                pending: Pending::Headquarters,
            },
        },
    }
}

/// The request that accepts or fulfils a contract.
fn contract_action(
    api: &TradersApi,
    game_status: &Session,
    id: &str,
    action: &str,
    headline: &str,
) -> (r: Step)
    requires
        game_status@.contains_key(token_key()),
        action@ == "accept"@ || action@ == "fulfill"@,
    ensures
        r@ == contract_action_step(api@, game_status@[token_key()], id@, action@, headline@),
{
    let members: Vec<(String, String)> = Vec::new();
    assert(member_views(members@) =~= Seq::<(Seq<char>, Seq<char>)>::empty());
    Step::Send {
        request: api.contract_interact_req(game_status, id, action, members),
        pending: wait_for_reply("Error interacting with contract", headline),
    }
}

/// The first step of the contract command. Without an argument it is the
/// one request that lists all contracts.
pub fn view_contract(
    api: &TradersApi,
    game_status: &Session,
    id: &Option<String>,
    accept: &Option<String>,
    fulfill: &Option<String>,
) -> (r: Step)
    ensures
        r@ == contract_step(
            api@,
            game_status@,
            opt_text(*id),
            opt_text(*accept),
            opt_text(*fulfill),
        ),
{
    if !check_local_token(game_status) {
        return no_token_step();
    }
    match id {
        Some(i) => Step::Send {
            request: api.contract_data_req(game_status, Some(i)),
            pending: wait_for_reply("Error getting contract data", "Retrieval successful!"),
        },
        None => match accept {
            Some(i) => contract_action(
                api,
                game_status,
                i.as_str(),
                "accept",
                "Contract accepted!",
            ),
            None => match fulfill {
                Some(i) => contract_action(
                    api,
                    game_status,
                    i.as_str(),
                    "fulfill",
                    "Contract fulfilled!",
                ),
                None => Step::Send {
                    request: api.contract_data_req(game_status, None),
                    pending: wait_for_reply(
                        "Error getting contract data",
                        "Retrieval successful!",
                    ),
                },
            },
        },
    }
}

/// The first step of a command.
pub fn process_command(api: &TradersApi, command: &Command, game_status: &Session) -> (r: Step)
    ensures
        r@ == first_step(api@, *command, game_status@),
{
    match command {
        Command::Status { local, remote } => get_status(api, game_status, *local, *remote),
        Command::New { callsign } => register_new_agent(api, game_status, callsign.as_str()),
        Command::Login { callsign } => login_agent(api, game_status, callsign.as_str()),
        Command::Location { waypoint, system } => view_location(
            api,
            game_status,
            waypoint,
            system,
        ),
        Command::Contract { id, accept, fulfill } => view_contract(
            api,
            game_status,
            id,
            accept,
            fulfill,
        ),
        Command::Missing => Step::Failed {
            failure: Failure::new("No command found.", Cause::PreconditionFailure),
        },
    }
}

/// The step that follows a line typed by the user: the token of a login, or
/// the answer to the question whether the stored callsign may go.
pub fn answer(api: &TradersApi, pending: Pending, line: &str, game_status: &Session) -> (r: Step)
    ensures
        r@ == answered(api@, pending@, line@, game_status@),
{
    match pending {
        Pending::Token { callsign } => guarded(
            api,
            game_status,
            callsign,
            Some(trim_space(line)),
        ),
        Pending::Consent { callsign, typed } => {
            if consent_given(line) {
                unguarded(api, callsign, typed)
            } else {
                Step::Failed { failure: Failure::new("Aborting...", Cause::PreconditionFailure) }
            }
        },
        _ => Step::Failed { failure: Failure::new("Unexpected input.", Cause::PreconditionFailure) },
    }
}

/// Takes a registration over into the session if the reply names the agent
/// as expected, and says whether it did. The session then holds the
/// callsign as it was asked for, and the token.
pub fn commit_registration(
    game_status: &mut Session,
    callsign: &str,
    expected: &str,
    symbol: &str,
    token: &str,
) -> (r: bool)
    ensures
        final(game_status).wf(),
        (final(game_status)@, r) == registration_commit(
            old(game_status)@,
            callsign@,
            expected@,
            symbol@,
            token@,
        ),
{
    proof {
        use_type_invariant(&*game_status);
    }
    if same_text(symbol, expected) {
        game_status.insert(String::from_str("callsign"), String::from_str(callsign));
        game_status.insert(String::from_str("token"), String::from_str(token));
        true
    } else {
        false
    }
}

/// The last step of a retrieval, from its classified reply.
fn end_of_reply(result: ClassifiedResult, headline: &str) -> (r: Step)
    ensures
        r@ == reply_end(outcome_view(result), headline@),
{
    match act_on_req_result(result, headline, true) {
        Ok(report) => Step::Done { report },
        Err(failure) => Step::Failed { failure },
    }
}

/// The step that follows what came of a request, and the change of the
/// session that goes with it.
///
/// The session changes in two cases only: a registration that the server
/// confirmed puts the callsign and the token into it, and a login whose
/// token the server accepted replaces it. Whenever the step is a failure the
/// session is what it was.
pub fn reply(api: &TradersApi, pending: Pending, exchange: Exchange, game_status: &mut Session) -> (r:
    Step)
    ensures
        final(game_status).wf(),
        (final(game_status)@, r@) == replied(api@, pending@, exchange, old(game_status)@),
        r@ is Failed ==> final(game_status)@ == old(game_status)@,
        pending@ is Reply ==> r@.is_end(),
{
    proof {
        use_type_invariant(&*game_status);
    }
    match pending {
        Pending::Registration { callsign } => {
            match api.check_exchange(exchange, "Error registering new agent") {
                Err(failure) => Step::Failed { failure },
                Ok(doc) => {
                    let expected = to_uppercase(callsign.as_str());
                    let symbol_text = text_at3(&doc, "data", "agent", "symbol");
                    let symbol = trim_matches(symbol_text.as_str(), '"');
                    let token_text = text_at2(&doc, "data", "token");
                    let token = trim_matches(token_text.as_str(), '"');
                    if commit_registration(
                        game_status,
                        callsign.as_str(),
                        expected.as_str(),
                        symbol.as_str(),
                        token.as_str(),
                    ) {
                        end_of_reply(Ok(doc), "Registration successful!")
                    } else {
                        let mut message = String::from_str(
                            "Error registering new agent - unexpected symbol ",
                        );
                        message.append(symbol.as_str());
                        Step::Failed {
                            failure: Failure { message, cause: Cause::MalformedResponse },
                        }
                    }
                },
            }
        },
        Pending::Verification { callsign, token } => {
            match api.check_exchange(exchange, "Error getting remote status") {
                Err(failure) => Step::Failed { failure },
                Ok(doc) => {
                    *game_status = reset_local_status(callsign, token);
                    end_of_reply(Ok(doc), "Login successful!")
                },
            }
        },
        Pending::Headquarters => {
            match api.check_exchange(exchange, "Error getting remote status") {
                Err(failure) => Step::Failed { failure },
                Ok(doc) => {
                    let location = text_at2(&doc, "data", "headquarters");
                    view_headquarters(api, game_status, location.as_str())
                },
            }
        },
        Pending::Reply { label, headline } => {
            let result = api.check_exchange(exchange, label.as_str());
            end_of_reply(result, headline.as_str())
        },
        _ => Step::Failed { failure: Failure::new("Unexpected input.", Cause::PreconditionFailure) },
    }
}

/// A failed login leaves the session as it was: whatever the stored session
/// and whatever the callsign and the token that were tried, if the status
/// request made with that token is classified as a failure, the session
/// after the reply is the session before it.
pub proof fn law_failed_login_keeps_session(
    api: ApiView,
    session: Map<Seq<char>, Seq<char>>,
    callsign: Seq<char>,
    token: Seq<char>,
    exchange: Exchange,
)
    requires
        classified_exchange(exchange, status_label()) is Err,
    ensures
        replied(api, PendingView::Verification { callsign, token }, exchange, session).0
            == session,
        replied(api, PendingView::Verification { callsign, token }, exchange, session).1 is Failed,
{
}

/// The contract command without an argument makes one request, to the list
/// of all contracts, and no other: with a token its first step sends that
/// request, and whatever comes of it, the step that follows ends the
/// command.
pub proof fn law_contract_list_is_one_request(
    api: ApiView,
    session: Map<Seq<char>, Seq<char>>,
    exchange: Exchange,
)
    requires
        has_token(session),
    ensures
        contract_step(api, session, None, None, None) matches StepView::Send { request, pending }
            && request == read_request(contracts_url(api), session[token_key()]) && replied(
            api,
            pending,
            exchange,
            session,
        ).1.is_end(),
{
}

} // verus!
