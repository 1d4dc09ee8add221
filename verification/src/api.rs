//! The remote operations: where each is addressed and what is sent with it.
//!
//! A request is described here and sent elsewhere: the description holds the
//! method, the address, the token that authorises it and the JSON object that
//! goes with it.

use crate::session::{token_key, value_or_empty, Session};
use crate::text::same_text;
use vstd::prelude::*;
use vstd::string::*;

verus! {

/// The method of a request.
#[derive(Clone, Copy, Debug, PartialEq, Eq, Structural)]
pub enum Method {
    Get,
    Post,
}

/// A request of the remote API.
#[derive(Debug)]
pub struct ApiRequest {
    pub method: Method,
    pub url: String,
    /// The token of the `Authorization: Bearer` header, for an operation that
    /// needs one.
    pub bearer: Option<String>,
    /// The members of the JSON object to send, for an operation that sends one.
    pub body: Option<Vec<(String, String)>>,
}

/// A request as texts.
pub struct RequestView {
    pub method: Method,
    pub url: Seq<char>,
    pub bearer: Option<Seq<char>>,
    pub body: Option<Seq<(Seq<char>, Seq<char>)>>,
}

/// The members of a JSON object as texts.
pub open spec fn member_views(v: Seq<(String, String)>) -> Seq<(Seq<char>, Seq<char>)> {
    Seq::new(v.len(), |i: int| (v[i].0@, v[i].1@))
}

impl View for ApiRequest {
    type V = RequestView;

    open spec fn view(&self) -> RequestView {
        RequestView {
            method: self.method,
            url: self.url@,
            bearer: match self.bearer {
                Some(token) => Some(token@),
                None => None,
            },
            body: match self.body {
                Some(members) => Some(member_views(members@)),
                None => None,
            },
        }
    }
}

/// The headers of a request: the content type and the accepted type, which
/// are JSON always, and the authorisation where the request has a token.
pub open spec fn headers_of(request: RequestView) -> Seq<(Seq<char>, Seq<char>)> {
    let fixed = seq![
        ("Content-Type"@, "application/json"@),
        ("Accept"@, "application/json"@),
    ];
    match request.bearer {
        Some(token) => fixed.push(("Authorization"@, "Bearer "@ + token)),
        None => fixed,
    }
}

impl ApiRequest {
    /// The headers to send with the request.
    pub fn headers(&self) -> (r: Vec<(String, String)>)
        ensures
            member_views(r@) == headers_of(self@),
    {
        let mut out: Vec<(String, String)> = Vec::new();
        out.push((String::from_str("Content-Type"), String::from_str("application/json")));
        out.push((String::from_str("Accept"), String::from_str("application/json")));
        match &self.bearer {
            Some(token) => {
                let mut value = String::from_str("Bearer ");
                value.append(token.as_str());
                out.push((String::from_str("Authorization"), value));
            },
            None => {},
        }
        assert(member_views(out@) =~= headers_of(self@));
        out
    }
}

/// The addresses of the remote API: its root and the path of each family of
/// operations below it.
pub struct TradersApi {
    api_url_root: String,
    api_suburl_register: String,
    api_suburl_status: String,
    api_suburl_location: String,
    api_suburl_contracts: String,
}

/// The addresses as texts.
pub struct ApiView {
    pub root: Seq<char>,
    pub register: Seq<char>,
    pub status: Seq<char>,
    pub location: Seq<char>,
    pub contracts: Seq<char>,
}

impl View for TradersApi {
    type V = ApiView;

    closed spec fn view(&self) -> ApiView {
        ApiView {
            root: self.api_url_root@,
            register: self.api_suburl_register@,
            status: self.api_suburl_status@,
            location: self.api_suburl_location@,
            contracts: self.api_suburl_contracts@,
        }
    }
}

/// The addresses of the game's API, version 2.
pub open spec fn traders_api() -> ApiView {
    ApiView {
        root: "https://api.spacetraders.io/v2/"@,
        register: "register"@,
        status: "my/agent"@,
        location: "systems"@,
        contracts: "my/contracts"@,
    }
}

/// Where the agent's status is asked for.
pub open spec fn status_url(api: ApiView) -> Seq<char> {
    api.root + api.status
}

/// Where a new agent is registered.
pub open spec fn register_url(api: ApiView) -> Seq<char> {
    api.root + api.register
}

/// Where the waypoints of a system are listed.
pub open spec fn system_url(api: ApiView, system: Seq<char>) -> Seq<char> {
    api.root + api.location + "/"@ + system + "/waypoints"@
}

/// Where one waypoint of a system is described.
pub open spec fn waypoint_url(api: ApiView, system: Seq<char>, waypoint: Seq<char>) -> Seq<char> {
    system_url(api, system) + "/"@ + waypoint
}

/// Where the agent's contracts are listed.
pub open spec fn contracts_url(api: ApiView) -> Seq<char> {
    api.root + api.contracts
}

/// Where one contract is described.
pub open spec fn contract_url(api: ApiView, id: Seq<char>) -> Seq<char> {
    contracts_url(api) + "/"@ + id
}

/// Where a contract is acted on: accepted or fulfilled.
pub open spec fn contract_action_url(api: ApiView, id: Seq<char>, action: Seq<char>) -> Seq<
    char,
> {
    contract_url(api, id) + "/"@ + action
}

/// A request that reads, authorised by a token.
pub open spec fn read_request(url: Seq<char>, token: Seq<char>) -> RequestView {
    RequestView { method: Method::Get, url, bearer: Some(token), body: None }
}

/// The request that registers a callsign: it needs no token, and it names the
/// callsign and the faction.
pub open spec fn register_request(api: ApiView, callsign: Seq<char>) -> RequestView {
    RequestView {
        method: Method::Post,
        url: register_url(api),
        bearer: None,
        body: Some(seq![("symbol"@, callsign), ("faction"@, "COSMIC"@)]),
    }
}

/// The request that acts on a contract: it sends the given object.
pub open spec fn contract_action_request(
    api: ApiView,
    token: Seq<char>,
    id: Seq<char>,
    action: Seq<char>,
    members: Seq<(Seq<char>, Seq<char>)>,
) -> RequestView {
    RequestView {
        method: Method::Post,
        url: contract_action_url(api, id, action),
        bearer: Some(token),
        body: Some(members),
    }
}

/// The addresses of the game's API.
pub fn get_traders_api() -> (r: TradersApi)
    ensures
        r@ == traders_api(),
{
    TradersApi {
        api_url_root: String::from_str("https://api.spacetraders.io/v2/"),
        api_suburl_register: String::from_str("register"),
        api_suburl_status: String::from_str("my/agent"),
        api_suburl_location: String::from_str("systems"),
        api_suburl_contracts: String::from_str("my/contracts"),
    }
}

/// The addresses of the game's API.
pub fn init_traders_api() -> (r: TradersApi)
    ensures
        r@ == traders_api(),
{
    get_traders_api()
}

impl TradersApi {
    /// The root of every address.
    pub fn api_url_root(&self) -> (r: &str)
        ensures
            r@ == self@.root,
    {
        self.api_url_root.as_str()
    }

    /// The path below the root where agents are registered.
    pub fn api_suburl_register(&self) -> (r: &str)
        ensures
            r@ == self@.register,
    {
        self.api_suburl_register.as_str()
    }

    /// The path below the root where the agent's status is.
    pub fn api_suburl_status(&self) -> (r: &str)
        ensures
            r@ == self@.status,
    {
        self.api_suburl_status.as_str()
    }

    /// The path below the root where the systems are.
    pub fn api_suburl_location(&self) -> (r: &str)
        ensures
            r@ == self@.location,
    {
        self.api_suburl_location.as_str()
    }

    /// The path below the root where the agent's contracts are.
    pub fn api_suburl_contracts(&self) -> (r: &str)
        ensures
            r@ == self@.contracts,
    {
        self.api_suburl_contracts.as_str()
    }

    /// A reading request to an address, authorised by the session's token.
    fn read_with_token(&self, game_status: &Session, url: String) -> (r: ApiRequest)
        requires
            game_status@.contains_key(token_key()),
        ensures
            r@ == read_request(url@, game_status@[token_key()]),
    {
        let token = game_status.get_or_empty("token");
        ApiRequest { method: Method::Get, url, bearer: Some(token), body: None }
    }

    /// The request for the agent's status.
    pub fn remote_status_req(&self, game_status: &Session) -> (r: ApiRequest)
        requires
            game_status@.contains_key(token_key()),
        ensures
            r@ == read_request(status_url(self@), game_status@[token_key()]),
    {
        let mut url = String::from_str(self.api_url_root());
        url.append(self.api_suburl_status());
        self.read_with_token(game_status, url)
    }

    /// The request that registers a new agent under a callsign, in the
    /// faction `COSMIC`.
    pub fn reg_agent_req(&self, callsign: &str) -> (r: ApiRequest)
        ensures
            r@ == register_request(self@, callsign@),
    {
        let mut url = String::from_str(self.api_url_root());
        url.append(self.api_suburl_register());
        let mut members: Vec<(String, String)> = Vec::new();
        members.push((String::from_str("symbol"), String::from_str(callsign)));
        members.push((String::from_str("faction"), String::from_str("COSMIC")));
        assert(member_views(members@) =~= seq![("symbol"@, callsign@), ("faction"@, "COSMIC"@)]);
        ApiRequest { method: Method::Post, url, bearer: None, body: Some(members) }
    }

    /// The request for one waypoint, given as its system and its own name.
    pub fn loc_waypoint_req(&self, game_status: &Session, sys_waypoint_tup: (String, String)) -> (r:
        ApiRequest)
        requires
            game_status@.contains_key(token_key()),
        ensures
            r@ == read_request(
                waypoint_url(self@, sys_waypoint_tup.0@, sys_waypoint_tup.1@),
                game_status@[token_key()],
            ),
    {
        let mut url = String::from_str(self.api_url_root());
        url.append(self.api_suburl_location());
        url.append("/");
        url.append(sys_waypoint_tup.0.as_str());
        url.append("/waypoints");
        url.append("/");
        url.append(sys_waypoint_tup.1.as_str());
        self.read_with_token(game_status, url)
    }

    /// The request for all waypoints of a system.
    pub fn loc_system_req(&self, game_status: &Session, sys_name: &str) -> (r: ApiRequest)
        requires
            game_status@.contains_key(token_key()),
        ensures
            r@ == read_request(system_url(self@, sys_name@), game_status@[token_key()]),
    {
        let mut url = String::from_str(self.api_url_root());
        url.append(self.api_suburl_location());
        url.append("/");
        url.append(sys_name);
        url.append("/waypoints");
        self.read_with_token(game_status, url)
    }

    /// The request for one contract, or for the list of all where no contract
    /// is named.
    pub fn contract_data_req(&self, game_status: &Session, contract_id: Option<&String>) -> (r:
        ApiRequest)
        requires
            game_status@.contains_key(token_key()),
        ensures
            r@ == read_request(
                match contract_id {
                    Some(id) => contract_url(self@, id@),
                    None => contracts_url(self@),
                },
                game_status@[token_key()],
            ),
    {
        let mut url = String::from_str(self.api_url_root());
        url.append(self.api_suburl_contracts());
        match contract_id {
            Some(id) => {
                url.append("/");
                url.append(id.as_str());
            },
            None => {},
        }
        self.read_with_token(game_status, url)
    }

    /// The request for one contract, or for the list of all where no contract
    /// is named.
    pub fn contract_req(&self, game_status: &Session, contract_id: Option<&String>) -> (r:
        ApiRequest)
        requires
            game_status@.contains_key(token_key()),
        ensures
            r@ == read_request(
                match contract_id {
                    Some(id) => contract_url(self@, id@),
                    None => contracts_url(self@),
                },
                game_status@[token_key()],
            ),
    {
        self.contract_data_req(game_status, contract_id)
    }

    /// The request that accepts or fulfils a contract. `interact_type` is
    /// `accept` or `fulfill`; the object that goes with it is `request_body`.
    pub fn contract_interact_req(
        &self,
        game_status: &Session,
        contract_id: &str,
        interact_type: &str,
        request_body: Vec<(String, String)>,
    ) -> (r: ApiRequest)
        requires
            game_status@.contains_key(token_key()),
            interact_type@ == "accept"@ || interact_type@ == "fulfill"@,
        ensures
            r@ == contract_action_request(
                self@,
                game_status@[token_key()],
                contract_id@,
                interact_type@,
                member_views(request_body@),
            ),
    {
        let mut url = String::from_str(self.api_url_root());
        url.append(self.api_suburl_contracts());
        url.append("/");
        url.append(contract_id);
        url.append("/");
        if same_text(interact_type, "accept") {
            url.append("accept");
        } else {
            url.append("fulfill");
        }
        let token = game_status.get_or_empty("token");
        ApiRequest { method: Method::Post, url, bearer: Some(token), body: Some(request_body) }
    }
}

/// One operation of the remote API.
#[derive(Debug)]
pub enum RemoteOperation {
    GetAgentStatus,
    RegisterAgent { callsign: String },
    GetWaypoint { system: String, waypoint: String },
    GetSystemWaypoints { system: String },
    GetContracts,
    GetContract { id: String },
    AcceptContract { id: String },
    FulfillContract { id: String },
}

impl RemoteOperation {
    /// Whether the operation is authorised by a token. Registration alone is
    /// not: it is what gives the token.
    pub open spec fn needs_token(self) -> bool {
        !(self is RegisterAgent)
    }

    /// The method: the operations that change something post, the others
    /// get.
    pub open spec fn method(self) -> Method {
        match self {
            RemoteOperation::RegisterAgent { .. }
            | RemoteOperation::AcceptContract { .. }
            | RemoteOperation::FulfillContract { .. } => Method::Post,
            _ => Method::Get,
        }
    }

    /// The address.
    pub open spec fn url(self, api: ApiView) -> Seq<char> {
        match self {
            RemoteOperation::GetAgentStatus => status_url(api),
            RemoteOperation::RegisterAgent { .. } => register_url(api),
            RemoteOperation::GetWaypoint { system, waypoint } => waypoint_url(
                api,
                system@,
                waypoint@,
            ),
            RemoteOperation::GetSystemWaypoints { system } => system_url(api, system@),
            RemoteOperation::GetContracts => contracts_url(api),
            RemoteOperation::GetContract { id } => contract_url(api, id@),
            RemoteOperation::AcceptContract { id } => contract_action_url(api, id@, "accept"@),
            RemoteOperation::FulfillContract { id } => contract_action_url(api, id@, "fulfill"@),
        }
    }

    /// The members of the JSON object that is sent: the callsign and the
    /// faction with a registration, none with an acceptance or a fulfilment,
    /// and no object at all with the others.
    pub open spec fn body(self) -> Option<Seq<(Seq<char>, Seq<char>)>> {
        match self {
            RemoteOperation::RegisterAgent { callsign } => Some(
                seq![("symbol"@, callsign@), ("faction"@, "COSMIC"@)],
            ),
            RemoteOperation::AcceptContract { .. } | RemoteOperation::FulfillContract { .. } => Some(
                Seq::empty(),
            ),
            _ => None,
        }
    }

    /// The request that makes the operation under a token. The token is
    /// attached exactly where the operation needs one.
    pub open spec fn request(self, api: ApiView, token: Seq<char>) -> RequestView {
        RequestView {
            method: self.method(),
            url: self.url(api),
            bearer: if self.needs_token() {
                Some(token)
            } else {
                None
            },
            body: self.body(),
        }
    }

    /// Whether the operation is authorised by a token.
    pub fn requires_token(&self) -> (r: bool)
        ensures
            r == self.needs_token(),
    {
        match self {
            RemoteOperation::RegisterAgent { .. } => false,
            _ => true,
        }
    }
}

impl TradersApi {
    /// The request that makes an operation with the token of a session.
    /// There is none for an operation that needs a token where the session
    /// holds none.
    pub fn request(&self, operation: &RemoteOperation, game_status: &Session) -> (r: Option<
        ApiRequest,
    >)
        ensures
            r.is_none() == (operation.needs_token() && !game_status@.contains_key(token_key())),
            r.is_some() ==> r.unwrap()@ == operation.request(
                self@,
                value_or_empty(game_status@, token_key()),
            ),
    {
        if operation.requires_token() && !game_status.contains_key("token") {
            return None;
        }
        let request = match operation {
            RemoteOperation::GetAgentStatus => self.remote_status_req(game_status),
            RemoteOperation::RegisterAgent { callsign } => self.reg_agent_req(callsign.as_str()),
            RemoteOperation::GetWaypoint { system, waypoint } => self.loc_waypoint_req(
                game_status,
                (system.clone(), waypoint.clone()),
            ),
            RemoteOperation::GetSystemWaypoints { system } => self.loc_system_req(
                game_status,
                system.as_str(),
            ),
            RemoteOperation::GetContracts => self.contract_data_req(game_status, None),
            RemoteOperation::GetContract { id } => self.contract_data_req(game_status, Some(id)),
            RemoteOperation::AcceptContract { id } => {
                let members: Vec<(String, String)> = Vec::new();
                assert(member_views(members@) =~= Seq::<(Seq<char>, Seq<char>)>::empty());
                self.contract_interact_req(game_status, id.as_str(), "accept", members)
            },
            RemoteOperation::FulfillContract { id } => {
                let members: Vec<(String, String)> = Vec::new();
                assert(member_views(members@) =~= Seq::<(Seq<char>, Seq<char>)>::empty());
                self.contract_interact_req(game_status, id.as_str(), "fulfill", members)
            },
        };
        Some(request)
    }
}

} // verus!
