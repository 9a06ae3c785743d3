//! Which role a run plays, decided once from its arguments.

use crate::peer::{decodes_to, fails_with, PeerId, TransportError};
use crate::requester::DEFAULT_PINGS;
use vstd::prelude::*;
use vstd::string::StringExecFns;

verus! {

/// The role of one run, with all that the role needs to know.
#[derive(Debug, PartialEq, Eq)]
pub enum Role {
    /// Serve requests on `bind_address`.
    Responder { bind_address: String },
    /// Make `ping_budget` round trips with `target_peer`, found at
    /// `target_address`.
    Requester { target_peer: PeerId, target_address: String, ping_budget: u32 },
}

/// The address that a responder listens on and a requester dials.
pub open spec fn known_address() -> Seq<char> {
    "/ip4/127.0.0.1/tcp/61241"@
}

/// The address that a responder listens on and a requester dials.
pub fn listen_address() -> (address: String)
    ensures
        address@ == known_address(),
{
    String::from_str("/ip4/127.0.0.1/tcp/61241")
}

/// Picks the role from the positional arguments of the run. Without any,
/// the run is a responder. Otherwise the first argument is the responder's
/// peer identifier in Base58, and the run is a requester with the default
/// budget; arguments after the first are not looked at.
pub fn select_role(arguments: &Vec<String>) -> (r: Result<Role, TransportError>)
    ensures
        arguments@.len() == 0 ==> {
            &&& r matches Ok(Role::Responder { bind_address })
            &&& bind_address@ == known_address()
        },
        arguments@.len() > 0 ==> match r {
            Ok(Role::Requester { target_peer, target_address, ping_budget }) => {
                &&& decodes_to(arguments@[0]@, target_peer@)
                &&& target_address@ == known_address()
                &&& ping_budget == DEFAULT_PINGS
            },
            Ok(Role::Responder { .. }) => false,
            Err(error) => fails_with(arguments@[0]@, error),
        },
{
    if arguments.len() == 0 {
        return Ok(Role::Responder { bind_address: listen_address() });
    }
    match PeerId::from_base58(arguments[0].as_str()) {
        Ok(target_peer) => Ok(
            Role::Requester {
                target_peer,
                target_address: listen_address(),
                ping_budget: DEFAULT_PINGS,
            },
        ),
        Err(error) => Err(error),
    }
}

} // verus!
