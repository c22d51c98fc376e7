//! The orchestrator's settings, checked from its command-line arguments.
use crate::node::{Endpoint, HostAddr};
use vstd::prelude::*;

verus! {

/// The command-line arguments of the orchestrator.
#[derive(Clone, Debug, PartialEq)]
pub struct AppArgs {
    /// The runtime root directory, when given.
    pub path: Option<String>,
    /// The address to listen on.
    pub host: HostAddr,
    /// The port nodes connect to.
    pub node_port: u16,
    /// The port of the web server.
    pub web_port: u16,
}

/// The orchestrator's settings: two distinct non-zero ports on one host.
#[derive(Clone, Debug, PartialEq)]
pub struct AppConfig {
    path: Option<String>,
    host: HostAddr,
    node_port: u16,
    web_port: u16,
}

/// Why a set of arguments is refused, if it is: a zero node port, then a zero web
/// port, then equal ports.
pub open spec fn config_error(node_port: u16, web_port: u16) -> Option<Seq<char>> {
    if node_port == 0 {
        Some("node-port must be greater than zero"@)
    } else if web_port == 0 {
        Some("web-port must be greater than zero"@)
    } else if node_port == web_port {
        Some("node-port and web-port must be different"@)
    } else {
        None
    }
}

impl AppConfig {
    /// The host the orchestrator listens on.
    pub closed spec fn host_spec(self) -> HostAddr {
        self.host
    }

    /// The port nodes connect to.
    pub closed spec fn node_port_spec(self) -> u16 {
        self.node_port
    }

    /// The port of the web server.
    pub closed spec fn web_port_spec(self) -> u16 {
        self.web_port
    }

    /// The runtime root, when given.
    pub closed spec fn path_spec(self) -> Option<Seq<char>> {
        match self.path {
            Some(p) => Some(p@),
            None => None,
        }
    }

    /// The ports are non-zero and distinct.
    pub closed spec fn valid(self) -> bool {
        config_error(self.node_port, self.web_port) is None
    }

    /// Checks the arguments: both ports non-zero and distinct.
    pub fn from_args(args: AppArgs) -> (r: Result<AppConfig, String>)
        ensures
            match r {
                Ok(c) => config_error(args.node_port, args.web_port) is None && c.valid()
                    && c.host_spec() == args.host && c.node_port_spec() == args.node_port
                    && c.web_port_spec() == args.web_port && c.path_spec() == match args.path {
                    Some(p) => Some(p@),
                    None => None::<Seq<char>>,
                },
                Err(e) => config_error(args.node_port, args.web_port) == Some(e@),
            },
            r is Ok <==> (args.node_port != 0 && args.web_port != 0 && args.node_port
                != args.web_port),
    {
        if args.node_port == 0 {
            return Err(String::from_str("node-port must be greater than zero"));
        }
        if args.web_port == 0 {
            return Err(String::from_str("web-port must be greater than zero"));
        }
        if args.node_port == args.web_port {
            return Err(String::from_str("node-port and web-port must be different"));
        }
        Ok(
            AppConfig {
                path: args.path,
                host: args.host,
                node_port: args.node_port,
                web_port: args.web_port,
            },
        )
    }

    /// The runtime root, when given.
    pub fn root_path(&self) -> (r: Option<&str>)
        ensures
            match r {
                Some(p) => self.path_spec() == Some(p@),
                None => self.path_spec() is None,
            },
    {
        match &self.path {
            Some(p) => Some(p.as_str()),
            None => None,
        }
    }

    /// The address nodes connect to.
    pub fn node_bind_addr(&self) -> (r: Endpoint)
        ensures
            r == (Endpoint { host: self.host_spec(), port: self.node_port_spec() }),
    {
        Endpoint { host: self.host, port: self.node_port }
    }

    /// The address of the web server.
    pub fn web_bind_addr(&self) -> (r: Endpoint)
        ensures
            r == (Endpoint { host: self.host_spec(), port: self.web_port_spec() }),
    {
        Endpoint { host: self.host, port: self.web_port }
    }
}

/// The node listener and the web server of an accepted configuration never share an
/// address, and neither uses port zero.
pub proof fn lemma_bind_addresses_differ(c: AppConfig)
    requires
        c.valid(),
    ensures
        (Endpoint { host: c.host_spec(), port: c.node_port_spec() }) != (Endpoint {
            host: c.host_spec(),
            port: c.web_port_spec(),
        }),
        c.node_port_spec() != 0,
        c.web_port_spec() != 0,
{
}

/// The settings are refused exactly when a port is zero or the two ports are equal:
/// any two distinct non-zero ports are accepted, in either order.
pub proof fn lemma_distinct_nonzero_ports_accepted(node_port: u16, web_port: u16)
    ensures
        config_error(node_port, web_port) is None <==> (node_port != 0 && web_port != 0
            && node_port != web_port),
{
}

} // verus!
