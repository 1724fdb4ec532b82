//! The settings the relay is started with.

use vstd::prelude::*;
use vstd::string::StringExecFns;

verus! {

/// What the operator chooses at start-up.
#[derive(Debug)]
pub struct Opts {
    /// Seconds between two polls of the upstream service.
    pub interval: u64,
    /// Account name at the upstream service.
    pub username: String,
    /// Account password at the upstream service.
    pub password: String,
    /// Port on which subscribers connect.
    pub port: String,
    /// Address on which subscribers connect.
    pub address: String,
    /// The one origin allowed to connect from a browser; any origin where absent.
    pub cors_origin: Option<String>,
    /// Relay the trimmed-down track instead of the upstream document.
    pub compact: bool,
}

impl Opts {
    /// Where to listen: the address and the port, joined by a colon.
    pub fn listen_addr(&self) -> (res: String)
        ensures
            res@ == self.address@ + ":"@ + self.port@,
    {
        let mut addr = self.address.clone();
        addr.append(":");
        addr.append(self.port.as_str());
        addr
    }
}

} // verus!
