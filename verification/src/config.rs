//! The agent's configuration record and the two socket addresses it names.

use vstd::prelude::*;
use vstd::string::StringExecFns;

verus! {

/// The host part of the address the agent listens on: every local interface.
pub open spec fn any_host() -> Seq<char> {
    "0.0.0.0:"@
}

/// The host part of the address replies go to: the limited broadcast address.
pub open spec fn broadcast_host() -> Seq<char> {
    "255.255.255.255:"@
}

/// What the agent is configured with. Only `info` changes while it runs.
#[derive(Debug, PartialEq, Eq)]
pub struct Config {
    /// The port the agent receives commands on.
    pub listen_port: String,
    /// The port replies are broadcast to.
    pub broadcast_port: String,
    /// The name by which commands address this agent.
    pub node_name: String,
    /// Free text that describes the node.
    pub info: String,
}

/// A configuration as plain character sequences.
pub struct ConfigModel {
    pub listen_port: Seq<char>,
    pub broadcast_port: Seq<char>,
    pub node_name: Seq<char>,
    pub info: Seq<char>,
}

impl View for Config {
    type V = ConfigModel;

    open spec fn view(&self) -> ConfigModel {
        ConfigModel {
            listen_port: self.listen_port@,
            broadcast_port: self.broadcast_port@,
            node_name: self.node_name@,
            info: self.info@,
        }
    }
}

impl ConfigModel {
    /// This configuration with another info text.
    pub open spec fn with_info(self, info: Seq<char>) -> ConfigModel {
        ConfigModel { info, ..self }
    }

    /// A node can be addressed only by a name that is not empty.
    pub open spec fn addressable(self) -> bool {
        self.node_name.len() > 0
    }

    /// The address the agent binds its socket to.
    pub open spec fn bind_address(self) -> Seq<char> {
        any_host() + self.listen_port
    }

    /// The address every reply is sent to.
    pub open spec fn broadcast_address(self) -> Seq<char> {
        broadcast_host() + self.broadcast_port
    }
}

impl Clone for Config {
    fn clone(&self) -> (copy: Config)
        ensures
            copy@ == self@,
    {
        Config {
            listen_port: self.listen_port.clone(),
            broadcast_port: self.broadcast_port.clone(),
            node_name: self.node_name.clone(),
            info: self.info.clone(),
        }
    }
}

impl Config {
    /// A configuration of the four given texts.
    pub fn new(listen_port: &str, broadcast_port: &str, node_name: &str, info: &str) -> (config:
        Config)
        ensures
            config@ == (ConfigModel {
                listen_port: listen_port@,
                broadcast_port: broadcast_port@,
                node_name: node_name@,
                info: info@,
            }),
    {
        Config {
            listen_port: listen_port.to_owned(),
            broadcast_port: broadcast_port.to_owned(),
            node_name: node_name.to_owned(),
            info: info.to_owned(),
        }
    }

    /// Whether commands can address this node at all.
    pub fn addressable(&self) -> (yes: bool)
        ensures
            yes == self@.addressable(),
    {
        !self.node_name.as_str().is_empty()
    }

    /// The address to bind the receiving socket to: any host, the listen port.
    pub fn bind_address(&self) -> (address: String)
        ensures
            address@ == self@.bind_address(),
    {
        String::from_str("0.0.0.0:").concat(self.listen_port.as_str())
    }

    /// The address replies are broadcast to: the limited broadcast address,
    /// the broadcast port.
    pub fn broadcast_address(&self) -> (address: String)
        ensures
            address@ == self@.broadcast_address(),
    {
        String::from_str("255.255.255.255:").concat(self.broadcast_port.as_str())
    }

    /// Replaces the info text and leaves the rest as it was.
    pub fn set_info(&mut self, info: String)
        ensures
            final(self)@ == old(self)@.with_info(info@),
    {
        self.info = info;
    }
}

} // verus!
