//! What the caller chooses before a process is started.

use vstd::prelude::*;

verus! {

/// The address that the relay binds to when the caller names none.
pub open spec fn loopback() -> Seq<char> {
    "127.0.0.1"@
}

/// Where the bundled executable lies below the directory that holds it.
pub open spec fn bundled_suffix() -> Seq<char> {
    "/bin/nostr-rs-relay_0_9_0_linux"@
}

/// The caller's choices for starting the relay.
#[derive(Debug, PartialEq, Eq, Clone)]
#[non_exhaustive]
pub struct Conf<'a> {
    /// Command line arguments, handed to the process before the generated
    /// ones.
    pub args: Vec<&'a str>,
    /// How many times to try to start the process.
    ///
    /// The system hands out free ports without reserving them, so a port may
    /// be taken by the time the process binds it. Each new attempt uses
    /// another port.
    pub attempts: u8,
    /// The address to bind to.
    pub ip: Option<String>,
    /// The port to listen on.
    pub port: Option<u16>,
    /// Path to the executable.
    pub binary: Option<String>,
}

impl<'a> Default for Conf<'a> {
    fn default() -> (r: Self)
        ensures
            r.args@.len() == 0,
            r.attempts == 5,
            r.ip is None,
            r.port is None,
            r.binary is None,
    {
        Conf { args: Vec::new(), attempts: 5, ip: None, port: None, binary: None }
    }
}

impl<'a> Conf<'a> {
    /// The address that the relay is told to bind.
    pub open spec fn address_spec(&self) -> Seq<char> {
        match self.ip {
            Some(ip) => ip@,
            None => loopback(),
        }
    }

    /// The port that the relay is told to listen on, where the system
    /// offers `allocated`.
    pub open spec fn port_spec(&self, allocated: u16) -> u16 {
        match self.port {
            Some(p) => p,
            None => allocated,
        }
    }

    /// The path of the executable, where the bundled one lies below `root`.
    pub open spec fn executable_spec(&self, root: Seq<char>) -> Seq<char> {
        match self.binary {
            Some(b) => b@,
            None => root + bundled_suffix(),
        }
    }

    /// The address to bind: the one chosen, else the loopback address.
    pub fn address(&self) -> (r: String)
        ensures
            r@ == self.address_spec(),
    {
        match &self.ip {
            Some(ip) => ip.clone(),
            None => String::from_str("127.0.0.1"),
        }
    }

    /// The port to listen on: the one chosen, else `allocated`, a port that
    /// the system has just reported free.
    pub fn port_or(&self, allocated: u16) -> (r: u16)
        ensures
            r == self.port_spec(allocated),
    {
        match self.port {
            Some(p) => p,
            None => allocated,
        }
    }

    /// The path of the executable: the one chosen, else the bundled one
    /// below `root`.
    pub fn executable(&self, root: &str) -> (r: String)
        ensures
            r@ == self.executable_spec(root@),
    {
        match &self.binary {
            Some(b) => b.clone(),
            None => String::from_str(root).concat("/bin/nostr-rs-relay_0_9_0_linux"),
        }
    }
}

} // verus!
