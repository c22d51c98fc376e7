//! Nodes: the child processes that the orchestrator starts and talks to.
use crate::text::{chars_eq_str, chars_of, decimal, lower, lower_chars, string_of};
use vstd::prelude::*;

pub mod args;
pub mod events;
pub mod protocol;
pub mod runtime;
pub mod service;
pub mod tls;

verus! {

/// The role a node plays.
#[derive(Clone, Copy, Debug, PartialEq, Eq, Structural)]
pub enum NodeType {
    Client,
    Server,
    Tools,
}

/// Lifecycle state of a node as the orchestrator sees it.
#[derive(Clone, Copy, Debug, PartialEq, Eq, Structural)]
pub enum NodeStatus {
    Starting,
    Connected,
    Disconnected,
    Failed,
}

/// An IP address: four octets or eight 16-bit groups.
#[derive(Clone, Copy, Debug, PartialEq, Eq, Structural)]
pub enum HostAddr {
    V4(u8, u8, u8, u8),
    V6(u16, u16, u16, u16, u16, u16, u16, u16),
}

/// A socket address: host and port.
#[derive(Clone, Copy, Debug, PartialEq, Eq, Structural)]
pub struct Endpoint {
    pub host: HostAddr,
    pub port: u16,
}

/// The lower-case name of a node type, as the command line spells it.
pub open spec fn node_type_name(t: NodeType) -> Seq<char> {
    match t {
        NodeType::Client => seq!['c', 'l', 'i', 'e', 'n', 't'],
        NodeType::Server => seq!['s', 'e', 'r', 'v', 'e', 'r'],
        NodeType::Tools => seq!['t', 'o', 'o', 'l', 's'],
    }
}

/// The capitalised name of a node type, as `{:?}` prints it.
pub open spec fn node_type_title(t: NodeType) -> Seq<char> {
    match t {
        NodeType::Client => seq!['C', 'l', 'i', 'e', 'n', 't'],
        NodeType::Server => seq!['S', 'e', 'r', 'v', 'e', 'r'],
        NodeType::Tools => seq!['T', 'o', 'o', 'l', 's'],
    }
}

/// The name of a node status, as `{:?}` prints it.
pub open spec fn node_status_title(s: NodeStatus) -> Seq<char> {
    match s {
        NodeStatus::Starting => seq!['S', 't', 'a', 'r', 't', 'i', 'n', 'g'],
        NodeStatus::Connected => seq!['C', 'o', 'n', 'n', 'e', 'c', 't', 'e', 'd'],
        NodeStatus::Disconnected => seq![
            'D',
            'i',
            's',
            'c',
            'o',
            'n',
            'n',
            'e',
            'c',
            't',
            'e',
            'd',
        ],
        NodeStatus::Failed => seq!['F', 'a', 'i', 'l', 'e', 'd'],
    }
}

/// The node type that a command-line value names, ignoring ASCII case.
pub open spec fn node_type_from_name(value: Seq<char>) -> Option<NodeType> {
    let l = lower(value);
    if l == node_type_name(NodeType::Client) {
        Some(NodeType::Client)
    } else if l == node_type_name(NodeType::Server) {
        Some(NodeType::Server)
    } else if l == node_type_name(NodeType::Tools) {
        Some(NodeType::Tools)
    } else {
        None
    }
}

/// The message of a rejected node type.
pub open spec fn invalid_node_type_message(value: Seq<char>) -> Seq<char> {
    "Invalid node type: "@ + value
}

/// A text made of the given characters.
fn text_of(Ghost(cs): Ghost<Seq<char>>, v: Vec<char>) -> (s: String)
    requires
        v@ == cs,
    ensures
        s@ == cs,
{
    let s = string_of(&v);
    assert(s@ =~= cs);
    s
}

impl NodeType {
    /// The lower-case name of this node type.
    pub fn to_string(self) -> (s: String)
        ensures
            s@ == node_type_name(self),
    {
        match self {
            NodeType::Client => text_of(Ghost(node_type_name(self)), vec!['c', 'l', 'i', 'e', 'n', 't']),
            NodeType::Server => text_of(Ghost(node_type_name(self)), vec!['s', 'e', 'r', 'v', 'e', 'r']),
            NodeType::Tools => text_of(Ghost(node_type_name(self)), vec!['t', 'o', 'o', 'l', 's']),
        }
    }

    /// The value that the command line's `--node-type` option takes for this type.
    pub fn as_cli_value(self) -> (s: String)
        ensures
            s@ == node_type_name(self),
    {
        self.to_string()
    }

    /// The capitalised name of this node type, as `{:?}` prints it.
    pub fn title(self) -> (s: String)
        ensures
            s@ == node_type_title(self),
    {
        match self {
            NodeType::Client => text_of(Ghost(node_type_title(self)), vec!['C', 'l', 'i', 'e', 'n', 't']),
            NodeType::Server => text_of(Ghost(node_type_title(self)), vec!['S', 'e', 'r', 'v', 'e', 'r']),
            NodeType::Tools => text_of(Ghost(node_type_title(self)), vec!['T', 'o', 'o', 'l', 's']),
        }
    }
}

impl NodeStatus {
    /// The name of this status, as `{:?}` prints it.
    pub fn title(self) -> (s: String)
        ensures
            s@ == node_status_title(self),
    {
        match self {
            NodeStatus::Starting => text_of(Ghost(node_status_title(self)),
                vec!['S', 't', 'a', 'r', 't', 'i', 'n', 'g'],
            ),
            NodeStatus::Connected => text_of(Ghost(node_status_title(self)),
                vec!['C', 'o', 'n', 'n', 'e', 'c', 't', 'e', 'd'],
            ),
            NodeStatus::Disconnected => text_of(Ghost(node_status_title(self)),
                vec!['D', 'i', 's', 'c', 'o', 'n', 'n', 'e', 'c', 't', 'e', 'd'],
            ),
            NodeStatus::Failed => text_of(Ghost(node_status_title(self)), vec!['F', 'a', 'i', 'l', 'e', 'd']),
        }
    }
}

/// Reads a node type from its command-line name, ignoring ASCII case.
pub fn parse_node_type(value: &str) -> (r: Result<NodeType, String>)
    ensures
        match r {
            Ok(t) => node_type_from_name(value@) == Some(t),
            Err(msg) => node_type_from_name(value@) is None && msg@ == invalid_node_type_message(
                value@,
            ),
        },
{
    let l = lower_chars(&chars_of(value));
    let client = NodeType::Client.to_string();
    let server = NodeType::Server.to_string();
    let tools = NodeType::Tools.to_string();
    if chars_eq_str(&l, client.as_str()) {
        Ok(NodeType::Client)
    } else if chars_eq_str(&l, server.as_str()) {
        Ok(NodeType::Server)
    } else if chars_eq_str(&l, tools.as_str()) {
        Ok(NodeType::Tools)
    } else {
        let mut msg = String::from_str("Invalid node type: ");
        msg.append(value);
        Err(msg)
    }
}

/// A node type's name reads back as the same node type.
pub proof fn lemma_node_type_name_round_trip(t: NodeType)
    ensures
        node_type_from_name(node_type_name(t)) == Some(t),
{
    let n = node_type_name(t);
    assert(lower(n) =~= n);
    assert(node_type_name(NodeType::Client) != node_type_name(NodeType::Server));
    assert(node_type_name(NodeType::Client) != node_type_name(NodeType::Tools));
    assert(node_type_name(NodeType::Server) != node_type_name(NodeType::Tools)) by {
        assert(node_type_name(NodeType::Server).len() != node_type_name(NodeType::Tools).len());
    }
    assert(node_type_name(NodeType::Client)[0] != node_type_name(NodeType::Server)[0]);
    assert(node_type_name(NodeType::Client)[0] != node_type_name(NodeType::Tools)[0]);
}

/// Settings of one node: what it is started with and what the orchestrator records.
#[derive(Clone, Debug, PartialEq)]
pub struct NodeRuntimeConfig {
    pub id: u64,
    pub node_type: NodeType,
    pub name: String,
    pub dev_mode: bool,
    pub orchestrator_addr: Endpoint,
}

/// The mathematical form of a [`NodeRuntimeConfig`].
pub struct NodeConfigView {
    pub id: u64,
    pub node_type: NodeType,
    pub name: Seq<char>,
    pub dev_mode: bool,
    pub orchestrator_addr: Endpoint,
}

impl View for NodeRuntimeConfig {
    type V = NodeConfigView;

    open spec fn view(&self) -> NodeConfigView {
        NodeConfigView {
            id: self.id,
            node_type: self.node_type,
            name: self.name@,
            dev_mode: self.dev_mode,
            orchestrator_addr: self.orchestrator_addr,
        }
    }
}

impl NodeRuntimeConfig {
    /// A copy of this configuration.
    pub fn copy(&self) -> (r: NodeRuntimeConfig)
        ensures
            r@ == self@,
    {
        NodeRuntimeConfig {
            id: self.id,
            node_type: self.node_type,
            name: self.name.clone(),
            dev_mode: self.dev_mode,
            orchestrator_addr: self.orchestrator_addr,
        }
    }
}

/// The display name of node `id`: `node-<id>`.
pub open spec fn node_name(id: u64) -> Seq<char> {
    "node-"@ + decimal(id as nat)
}

} // verus!
