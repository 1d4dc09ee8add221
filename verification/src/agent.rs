//! The player's agent: a callsign and the token that authorises it.

use crate::api::{read_request, register_request, status_url, ApiRequest, TradersApi};
use crate::session::reset_local_status;
use vstd::prelude::*;
use vstd::string::*;

verus! {

/// An agent of the game.
#[derive(Debug)]
pub struct TradersAgent {
    pub callsign: String,
    pub token: String,
}

impl TradersAgent {
    /// The callsign.
    pub fn callsign(&self) -> (r: &str)
        ensures
            r@ == self.callsign@,
    {
        self.callsign.as_str()
    }

    /// The token.
    pub fn token(&self) -> (r: &str)
        ensures
            r@ == self.token@,
    {
        self.token.as_str()
    }

    /// The request that registers this agent's callsign.
    pub fn register_new_agent(&self, traders_api: &TradersApi) -> (r: ApiRequest)
        ensures
            r@ == register_request(traders_api@, self.callsign@),
    {
        traders_api.reg_agent_req(self.callsign())
    }

    /// The request for this agent's status, authorised by its token.
    pub fn get_agent_status(&self, traders_api: &TradersApi) -> (r: ApiRequest)
        ensures
            r@ == read_request(status_url(traders_api@), self.token@),
    {
        let session = reset_local_status(self.callsign.clone(), self.token.clone());
        traders_api.remote_status_req(&session)
    }
}

/// The agent with a callsign and a token.
pub fn init_player_agent(callsign: String, token: String) -> (r: TradersAgent)
    ensures
        r.callsign@ == callsign@,
        r.token@ == token@,
{
    TradersAgent { callsign, token }
}

} // verus!
