//! The command surface: which role to run and where to reach the
//! rendezvous.
//!
//! Plain values only; flag parsing happens at the process edge and
//! hands a `DproxArg` in.

use vstd::prelude::*;

verus! {

/// Arguments of the rendezvous role: the UDP port to listen on.
#[derive(Debug)]
pub struct Server {
    /// Listen port; the conventional default when absent.
    pub port: Option<u16>,
}

/// Arguments of the peer and info roles: where the rendezvous is.
#[derive(Debug)]
pub struct Client {
    /// Rendezvous host address, as given on the command line.
    pub remote_addr: String,
    /// Rendezvous port; the conventional default when absent.
    pub port: Option<u16>,
}

/// The role this process runs as.
#[derive(Debug)]
pub enum Role {
    /// Run the rendezvous.
    Server(Server),
    /// Run a peer tunneling through the rendezvous.
    Client(Client),
    /// Query the rendezvous once for its registry and report it.
    Info(Client),
}

/// The parsed command line.
#[derive(Debug)]
pub struct DproxArg {
    /// The selected role with its arguments.
    pub command: Role,
}

} // verus!
