//! What the server is started with.

use crate::decimal::{decimal_text, to_decimal};
use vstd::prelude::*;

verus! {

/// The client of the upstream API. It carries the credential and sends the
/// requests; the library hands it through and never looks inside.
#[verifier::external_type_specification]
#[verifier::external_body]
pub struct ExOctocrab(octocrab::Octocrab);

/// `Clone::clone` of the client. Nothing is claimed of the copy.
pub assume_specification[ <octocrab::Octocrab as Clone>::clone ](
    client: &octocrab::Octocrab,
) -> octocrab::Octocrab
;

/// What every request handler shares.
#[derive(Debug, Clone)]
pub struct AppState {
    pub github_client: octocrab::Octocrab,
}

/// Where the server listens, and what its handlers share.
#[derive(Debug, Clone)]
pub struct ServerConfig {
    pub address: String,
    pub port: u16,
    pub state: AppState,
}

/// The address and the port as one text, with a colon between them.
pub open spec fn bind_text(address: Seq<char>, port: u16) -> Seq<char> {
    address + seq![':'] + decimal_text(port as nat)
}

/// Writes an address and a port as one text, with a colon between them.
pub fn bind_address(address: &str, port: u16) -> (text: String)
    ensures
        text@ == bind_text(address@, port),
{
    let mut text = String::from_str(address);
    text.append(":");
    text.append(to_decimal(port as u64).as_str());
    proof {
        reveal_strlit(":");
        assert(text@ =~= bind_text(address@, port));
    }
    text
}

impl ServerConfig {
    /// The text to bind the listener to: the address, a colon, the port.
    pub fn bind_address(&self) -> (text: String)
        ensures
            text@ == bind_text(self.address@, self.port),
    {
        bind_address(self.address.as_str(), self.port)
    }
}

} // verus!
