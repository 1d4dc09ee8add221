//! The words of the command line: the name of each command, and for each
//! argument its long name, the identifier under which its value is found,
//! and its short name.

use vstd::prelude::*;

verus! {

/// The words of the command line.
pub struct CommandStrings {
    pub sc_contract: &'static str,
    pub sc_location: &'static str,
    pub sc_login: &'static str,
    pub sc_new: &'static str,
    pub sc_status: &'static str,
    pub arg_accept: (&'static str, &'static str, char),
    pub arg_callsign: (&'static str, &'static str, char),
    pub arg_fulfill: (&'static str, &'static str, char),
    pub arg_id: (&'static str, &'static str, char),
    pub arg_local: (&'static str, &'static str, char),
    pub arg_remote: (&'static str, &'static str, char),
    pub arg_system: (&'static str, &'static str, char),
    pub arg_waypoint: (&'static str, &'static str, char),
}

/// Whether an argument has the given long name, identifier and short name.
pub open spec fn names(
    arg: (&'static str, &'static str, char),
    long: Seq<char>,
    id: Seq<char>,
    short: char,
) -> bool {
    arg.0@ == long && arg.1@ == id && arg.2 == short
}

/// The words that the command line uses.
pub fn all_commands() -> (r: CommandStrings)
    ensures
        r.sc_contract@ == "contract"@,
        r.sc_location@ == "location"@,
        r.sc_login@ == "login"@,
        r.sc_new@ == "new"@,
        r.sc_status@ == "status"@,
        names(r.arg_accept, "accept"@, "id_accept"@, 'a'),
        names(r.arg_callsign, "callsign"@, "id_callsign"@, 'c'),
        names(r.arg_fulfill, "fulfill"@, "id_fulfill"@, 'f'),
        names(r.arg_id, "id"@, "id_id"@, 'i'),
        names(r.arg_local, "local"@, "id_local"@, 'l'),
        names(r.arg_remote, "remote"@, "id_remote"@, 'r'),
        names(r.arg_system, "system"@, "id_system"@, 's'),
        names(r.arg_waypoint, "waypoint"@, "id_waypoint"@, 'w'),
{
    CommandStrings {
        sc_contract: "contract",
        sc_location: "location",
        sc_login: "login",
        sc_new: "new",
        sc_status: "status",
        arg_accept: ("accept", "id_accept", 'a'),
        arg_callsign: ("callsign", "id_callsign", 'c'),
        arg_fulfill: ("fulfill", "id_fulfill", 'f'),
        arg_id: ("id", "id_id", 'i'),
        arg_local: ("local", "id_local", 'l'),
        arg_remote: ("remote", "id_remote", 'r'),
        arg_system: ("system", "id_system", 's'),
        arg_waypoint: ("waypoint", "id_waypoint", 'w'),
    }
}

} // verus!
