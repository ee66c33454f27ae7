//! The peers that the configuration names.

use vstd::prelude::*;

verus! {

/// The port of a sender for which the configuration gives none.
pub const DEFAULT_PORT: u16 = 5258;

/// A capturing host that this host takes input from.
#[derive(Clone, Debug, PartialEq, Eq)]
pub struct Sender {
    pub nick: Option<String>,
    pub address: String,
    pub port: Option<u16>,
    /// Lowercase hex of the SHA-256 of the sender's certificate.
    pub fingerprint: Option<String>,
}

/// An injecting host that may take input from this host.
#[derive(Clone, Debug, PartialEq, Eq)]
pub struct Receiver {
    pub nick: Option<String>,
    /// Lowercase hex of the SHA-256 of the receiver's certificate.
    pub fingerprint: Option<String>,
}

/// Which of the two roles a host plays.
#[derive(Clone, Copy, Debug, PartialEq, Eq, Structural)]
pub struct Roles {
    /// It captures input and routes it to its receivers.
    pub server: bool,
    /// It injects what its senders route to it.
    pub client: bool,
}

impl Sender {
    /// The port to connect to.
    pub fn port_or_default(&self) -> (port: u16)
        ensures
            port == match self.port {
                Some(port) => port,
                None => DEFAULT_PORT,
            },
    {
        match self.port {
            Some(port) => port,
            None => DEFAULT_PORT,
        }
    }

    /// What to call the sender: its nick, or else its address.
    pub fn name(&self) -> (name: &String)
        ensures
            *name == match self.nick {
                Some(nick) => nick,
                None => self.address,
            },
    {
        match &self.nick {
            Some(nick) => nick,
            None => &self.address,
        }
    }
}

impl Receiver {
    /// What to call the receiver when it presents that fingerprint: its
    /// nick, or else the fingerprint.
    pub fn name<'a>(&'a self, fingerprint: &'a String) -> (name: &'a String)
        ensures
            *name == match self.nick {
                Some(nick) => nick,
                None => *fingerprint,
            },
    {
        match &self.nick {
            Some(nick) => nick,
            None => fingerprint,
        }
    }
}

/// What a configuration lacks.
#[derive(Clone, Copy, Debug, PartialEq, Eq, Structural)]
pub enum ConfigError {
    /// It names neither a sender nor a receiver.
    NoPeers,
    /// It names receivers and no address to listen on.
    MissingListenAddress,
    /// It names receivers and no combo to switch between them.
    MissingSwitchKeys,
}

/// The roles that a configuration asks for, or what it lacks.
pub open spec fn roles_of(
    listen_address: bool,
    switch_keys: bool,
    senders: usize,
    receivers: usize,
) -> Result<Roles, ConfigError> {
    if senders == 0 && receivers == 0 {
        Err(ConfigError::NoPeers)
    } else if receivers != 0 && !listen_address {
        Err(ConfigError::MissingListenAddress)
    } else if receivers != 0 && !switch_keys {
        Err(ConfigError::MissingSwitchKeys)
    } else {
        Ok(Roles { server: receivers != 0, client: senders != 0 })
    }
}

/// The roles of a host whose configuration names that many senders and
/// receivers: it serves where it has receivers and is a client where it
/// has senders. A host with neither has no role. A host that serves needs
/// an address to listen on and a combo: `listen_address` and `switch_keys`
/// say whether the configuration gives them.
pub fn roles(listen_address: bool, switch_keys: bool, senders: usize, receivers: usize) -> (roles:
    Result<Roles, ConfigError>)
    ensures
        roles == roles_of(listen_address, switch_keys, senders, receivers),
{
    if senders == 0 && receivers == 0 {
        Err(ConfigError::NoPeers)
    } else if receivers != 0 && !listen_address {
        Err(ConfigError::MissingListenAddress)
    } else if receivers != 0 && !switch_keys {
        Err(ConfigError::MissingSwitchKeys)
    } else {
        Ok(Roles { server: receivers != 0, client: senders != 0 })
    }
}

} // verus!
