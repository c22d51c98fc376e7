//! The orchestrator's book of nodes: which nodes exist, their state, and the RPC
//! requests that are waiting for a response.
use crate::json::{Json, JsonV};
use crate::node::events::NodeEvent;
use crate::node::protocol::{format_remote_log, remote_log_line, RpcMessage, RpcMessageView};
use crate::node::{
    node_name, node_status_title, node_type_title, Endpoint, NodeConfigView, NodeRuntimeConfig,
    NodeStatus, NodeType,
};
use crate::text::{append_bool, append_decimal, bool_text, decimal, u64_to_decimal};
use std::collections::{HashMap, HashSet};
use vstd::std_specs::iter::IteratorSpec;
use vstd::prelude::*;

verus! {

broadcast use vstd::std_specs::hash::group_hash_axioms;

/// What the orchestrator knows of one node. The process, connection and stream
/// handles themselves are kept by the caller, keyed by node id; this record says
/// which of them exist.
#[derive(Clone, Debug, PartialEq)]
pub struct NodeRecord {
    pub config: NodeRuntimeConfig,
    pub status: NodeStatus,
    pub pid: Option<u32>,
    pub connected: bool,
    pub rpc_ready: bool,
}

/// The mathematical form of a [`NodeRecord`].
pub struct NodeRecordView {
    pub config: NodeConfigView,
    pub status: NodeStatus,
    pub pid: Option<u32>,
    pub connected: bool,
    pub rpc_ready: bool,
}

impl View for NodeRecord {
    type V = NodeRecordView;

    open spec fn view(&self) -> NodeRecordView {
        NodeRecordView {
            config: self.config@,
            status: self.status,
            pid: self.pid,
            connected: self.connected,
            rpc_ready: self.rpc_ready,
        }
    }
}

impl NodeRecord {
    /// A copy of this record.
    pub fn copy(&self) -> (r: NodeRecord)
        ensures
            r@ == self@,
    {
        NodeRecord {
            config: self.config.copy(),
            status: self.status,
            pid: self.pid,
            connected: self.connected,
            rpc_ready: self.rpc_ready,
        }
    }
}

/// The mathematical form of a [`NodeService`].
pub struct NodeServiceView {
    pub nodes: Map<u64, NodeRecordView>,
    pub next_id: u64,
    pub rpc_seq: u64,
    pub pending: Set<u64>,
    pub orchestrator_addr: Endpoint,
}

/// The views of the records of a map of nodes.
pub open spec fn nodes_view(m: Map<u64, NodeRecord>) -> Map<u64, NodeRecordView> {
    m.map_values(|r: NodeRecord| r@)
}

/// The record of a node that has just been started.
pub open spec fn started_record(config: NodeConfigView, pid: Option<u32>) -> NodeRecordView {
    NodeRecordView { config, status: NodeStatus::Starting, pid, connected: false, rpc_ready: false }
}

/// A record after its node has connected.
pub open spec fn connected_record(r: NodeRecordView) -> NodeRecordView {
    NodeRecordView { status: NodeStatus::Connected, connected: true, ..r }
}

/// A record after its node has disconnected: no connection and no RPC stream.
pub open spec fn disconnected_record(r: NodeRecordView) -> NodeRecordView {
    NodeRecordView { status: NodeStatus::Disconnected, connected: false, rpc_ready: false, ..r }
}

/// A record after its node has failed.
pub open spec fn failed_record(r: NodeRecordView) -> NodeRecordView {
    NodeRecordView { status: NodeStatus::Failed, ..r }
}

/// A record after its node has opened its RPC stream.
pub open spec fn rpc_ready_record(r: NodeRecordView) -> NodeRecordView {
    NodeRecordView { rpc_ready: true, ..r }
}

/// A record with its development flag set to `state`.
pub open spec fn dev_record(r: NodeRecordView, state: bool) -> NodeRecordView {
    NodeRecordView { config: NodeConfigView { dev_mode: state, ..r.config }, ..r }
}

/// The nodes with the record of `id`, when present, changed by `f`.
pub open spec fn update_node(
    nodes: Map<u64, NodeRecordView>,
    id: u64,
    f: spec_fn(NodeRecordView) -> NodeRecordView,
) -> Map<u64, NodeRecordView> {
    if nodes.contains_key(id) {
        nodes.insert(id, f(nodes[id]))
    } else {
        nodes
    }
}

/// The line that lists a node:
/// `ID: <id>, Type: <type>, Name: <name>, Status: <status>, Dev: <dev>, RPC: <rpc>`.
pub open spec fn list_line(r: NodeRecordView) -> Seq<char> {
    "ID: "@ + decimal(r.config.id as nat) + ", Type: "@ + node_type_title(r.config.node_type)
        + ", Name: "@ + r.config.name + ", Status: "@ + node_status_title(r.status) + ", Dev: "@
        + bool_text(r.config.dev_mode) + ", RPC: "@ + bool_text(r.rpc_ready)
}

/// `lines` lists the nodes: one line per node, each node once, in the order of `ids`.
pub open spec fn lists_nodes_in_order(
    lines: Seq<Seq<char>>,
    nodes: Map<u64, NodeRecordView>,
    ids: Seq<u64>,
) -> bool {
    &&& ids.no_duplicates()
    &&& ids.to_set() == nodes.dom()
    &&& lines.len() == ids.len()
    &&& forall|i: int| 0 <= i < ids.len() ==> #[trigger] lines[i] == list_line(nodes[ids[i]])
}

/// `lines` lists the nodes: one line per node, each node once, in some order.
pub open spec fn lists_nodes(lines: Seq<Seq<char>>, nodes: Map<u64, NodeRecordView>) -> bool {
    exists|ids: Seq<u64>| lists_nodes_in_order(lines, nodes, ids)
}

/// The text of a process id, or `unknown` when there is none.
pub open spec fn pid_text(pid: Option<u32>) -> Seq<char> {
    match pid {
        Some(p) => decimal(p as nat),
        None => "unknown"@,
    }
}

/// The line that describes one node in detail:
/// `Node <id> => type=<type>, name=<name>, status=<status>, dev=<dev>, pid=<pid>`.
pub open spec fn info_line(r: NodeRecordView) -> Seq<char> {
    "Node "@ + decimal(r.config.id as nat) + " => type="@ + node_type_title(r.config.node_type)
        + ", name="@ + r.config.name + ", status="@ + node_status_title(r.status) + ", dev="@
        + bool_text(r.config.dev_mode) + ", pid="@ + pid_text(r.pid)
}

/// The error for a node id that is not known.
pub open spec fn not_found_message(id: u64) -> Seq<char> {
    "Node "@ + decimal(id as nat) + " not found"@
}

/// What a routed RPC message became.
#[derive(Debug)]
pub enum RpcRouting {
    /// A response to a waiting request: hand it to the waiter of `request_id`.
    Delivered { request_id: u64, message: RpcMessage },
    /// A message that no waiting request claims.
    Unclaimed(RpcMessage),
}

/// Whether `m` answers a request that is still waiting.
pub open spec fn answers_pending(m: RpcMessageView, pending: Set<u64>) -> bool {
    &&& m.method is None
    &&& m.request_id is Some
    &&& pending.contains(m.request_id->0)
}

/// How waiting for the response to a request ended.
#[derive(Debug)]
pub enum RpcWait {
    /// The response arrived.
    Answered(RpcMessage),
    /// The waiter was dropped before any response arrived.
    Closed,
    /// No response arrived in the time allowed.
    TimedOut,
}

/// What `node dev` reports once its request is over.
#[derive(Debug)]
pub enum DevReply {
    /// The node answered; its response is printed.
    Answered(RpcMessage),
    /// The node has no RPC stream: this line is printed.
    LocalOnly(String),
}

/// What the caller does after the node book has taken an event in.
#[derive(Debug, PartialEq)]
pub enum EventAction {
    /// Nothing more.
    Nothing,
    /// Keep the event's connection handle for the node.
    AttachConnection(u64),
    /// Keep the event's RPC stream handle for the node.
    AttachSender(u64),
    /// Hand the event's message to the waiter of this request.
    DeliverResponse(u64),
    /// Print the event's message as an incoming call from this node.
    PrintIncomingCall(u64),
    /// Print this line.
    Print(String),
    /// Drop the node's connection and stream handles, then print this line.
    Detach { node_id: u64, line: String },
}

/// The line printed when a node disconnects: `Node <id> disconnected: <reason>`.
pub open spec fn disconnect_line(id: u64, reason: Seq<char>) -> Seq<char> {
    "Node "@ + decimal(id as nat) + " disconnected: "@ + reason
}

/// The node book of the orchestrator.
pub struct NodeService {
    nodes: HashMap<u64, NodeRecord>,
    next_id: u64,
    rpc_seq: u64,
    pending_rpc: HashSet<u64>,
    orchestrator_addr: Endpoint,
}

impl View for NodeService {
    type V = NodeServiceView;

    closed spec fn view(&self) -> NodeServiceView {
        NodeServiceView {
            nodes: nodes_view(self.nodes@),
            next_id: self.next_id,
            rpc_seq: self.rpc_seq,
            pending: self.pending_rpc@,
            orchestrator_addr: self.orchestrator_addr,
        }
    }
}

impl NodeService {
    /// An empty book for an orchestrator listening at `orchestrator_addr`.
    pub fn new(orchestrator_addr: Endpoint) -> (s: NodeService)
        ensures
            s@.nodes == Map::<u64, NodeRecordView>::empty(),
            s@.next_id == 1,
            s@.rpc_seq == 1,
            s@.pending == Set::<u64>::empty(),
            s@.orchestrator_addr == orchestrator_addr,
            book_consistent(s@),
    {
        let s = NodeService {
            nodes: HashMap::new(),
            next_id: 1,
            rpc_seq: 1,
            pending_rpc: HashSet::new(),
            orchestrator_addr,
        };
        assert(nodes_view(s.nodes@) =~= Map::<u64, NodeRecordView>::empty());
        s
    }

    /// The address nodes connect back to.
    pub fn orchestrator_addr(&self) -> (r: Endpoint)
        ensures
            r == self@.orchestrator_addr,
    {
        self.orchestrator_addr
    }

    /// Whether node `id` is known.
    pub fn contains(&self, id: u64) -> (r: bool)
        ensures
            r == self@.nodes.contains_key(id),
    {
        self.nodes.contains_key(&id)
    }

    /// The record of node `id`.
    pub fn node(&self, id: u64) -> (r: Option<&NodeRecord>)
        ensures
            match r {
                Some(n) => self@.nodes.contains_key(id) && self@.nodes[id] == n@,
                None => !self@.nodes.contains_key(id),
            },
    {
        self.nodes.get(&id)
    }

    /// Number of known nodes.
    pub fn len(&self) -> (r: usize)
        ensures
            r == self@.nodes.len(),
    {
        proof {
            assert(nodes_view(self.nodes@).dom() =~= self.nodes@.dom());
        }
        self.nodes.len()
    }

    /// Replaces the record of `id` by `r` (adding it when absent).
    fn put(&mut self, id: u64, r: NodeRecord)
        ensures
            final(self)@ == (NodeServiceView { nodes: old(self)@.nodes.insert(id, r@), ..old(self)@ }),
    {
        self.nodes.insert(id, r);
        proof {
            assert(nodes_view(self.nodes@) =~= nodes_view(old(self).nodes@).insert(id, r@));
        }
    }

    /// Takes a fresh node id: the counter's value, which then moves on by one.
    pub fn allocate_node_id(&mut self) -> (r: Result<u64, String>)
        ensures
            old(self)@.next_id == u64::MAX ==> r is Err && r->Err_0@ == "Node ID overflow"@
                && final(self)@ == old(self)@,
            old(self)@.next_id < u64::MAX ==> final(self)@ == (NodeServiceView {
                next_id: (old(self)@.next_id + 1) as u64,
                ..old(self)@
            }),
            old(self)@.next_id < u64::MAX && !old(self)@.nodes.contains_key(old(self)@.next_id)
                ==> r == Ok::<u64, String>(old(self)@.next_id),
            old(self)@.next_id < u64::MAX && old(self)@.nodes.contains_key(old(self)@.next_id)
                ==> r is Err && r->Err_0@ == "Node with id "@ + decimal(old(self)@.next_id as nat)
                + " already exists"@,
            r is Ok ==> !final(self)@.nodes.contains_key(r->Ok_0),
    {
        let node_id = self.next_id;
        match self.next_id.checked_add(1) {
            Some(n) => {
                self.next_id = n;
            },
            None => {
                return Err(String::from_str("Node ID overflow"));
            },
        }
        if self.nodes.contains_key(&node_id) {
            let mut msg = String::from_str("Node with id ");
            append_decimal(&mut msg, node_id);
            msg.append(" already exists");
            return Err(msg);
        }
        Ok(node_id)
    }

    /// The settings a new node `node_id` of type `node_type` is started with.
    pub fn build_runtime_config(&self, node_id: u64, node_type: NodeType) -> (c: NodeRuntimeConfig)
        ensures
            c@ == (NodeConfigView {
                id: node_id,
                node_type,
                name: node_name(node_id),
                dev_mode: false,
                orchestrator_addr: self@.orchestrator_addr,
            }),
    {
        let mut name = String::from_str("node-");
        append_decimal(&mut name, node_id);
        NodeRuntimeConfig {
            id: node_id,
            node_type,
            name,
            dev_mode: false,
            orchestrator_addr: self.orchestrator_addr,
        }
    }

    /// Records a node that has just been started, with the id of its process.
    pub fn register_started_node(&mut self, config: NodeRuntimeConfig, pid: Option<u32>)
        ensures
            final(self)@ == (NodeServiceView {
                nodes: old(self)@.nodes.insert(config.id, started_record(config@, pid)),
                ..old(self)@
            }),
    {
        let id = config.id;
        let r = NodeRecord {
            config,
            status: NodeStatus::Starting,
            pid,
            connected: false,
            rpc_ready: false,
        };
        self.put(id, r);
    }

    /// The listing line of one record.
    pub fn list_line(r: &NodeRecord) -> (s: String)
        ensures
            s@ == list_line(r@),
            s@ == "ID: "@ + decimal(r.config.id as nat) + ", Type: "@ + node_type_title(
                r.config.node_type,
            ) + ", Name: "@ + r.config.name@ + ", Status: "@ + node_status_title(r.status)
                + ", Dev: "@ + (if r.config.dev_mode {
                "true"@
            } else {
                "false"@
            }) + ", RPC: "@ + (if r.rpc_ready {
                "true"@
            } else {
                "false"@
            }),
            exists|prefix: Seq<char>|
                s@ == prefix + ", Dev: "@ + (if r.config.dev_mode {
                    "true"@
                } else {
                    "false"@
                }) + ", RPC: "@ + (if r.rpc_ready {
                    "true"@
                } else {
                    "false"@
                }),
    {
        proof {
            lemma_list_line_shows_flags(r@);
            reveal_strlit("true");
            reveal_strlit("false");
            assert(bool_text(true) =~= "true"@);
            assert(bool_text(false) =~= "false"@);
        }
        let mut s = String::from_str("ID: ");
        append_decimal(&mut s, r.config.id);
        s.append(", Type: ");
        s.append(r.config.node_type.title().as_str());
        s.append(", Name: ");
        s.append(r.config.name.as_str());
        s.append(", Status: ");
        s.append(r.status.title().as_str());
        s.append(", Dev: ");
        append_bool(&mut s, r.config.dev_mode);
        s.append(", RPC: ");
        append_bool(&mut s, r.rpc_ready);
        proof {
            assert(s@ =~= list_line(r@));
        }
        s
    }

    /// One listing line per known node, in the map's iteration order.
    pub fn list_lines(&self) -> (lines: Vec<String>)
        ensures
            lists_nodes(lines@.map_values(|s: String| s@), self@.nodes),
    {
        let ids = self.node_ids();
        let mut lines: Vec<String> = Vec::new();
        let mut i: usize = 0;
        while i < ids.len()
            invariant
                i <= ids.len(),
                ids@.to_set() == self@.nodes.dom(),
                lines.len() == i,
                forall|j: int|
                    0 <= j < i ==> #[trigger] lines[j]@ == list_line(self@.nodes[ids@[j]]),
            decreases ids.len() - i,
        {
            assert(ids@.to_set().contains(ids@[i as int]));
            let r = self.node(ids[i]).unwrap();
            lines.push(NodeService::list_line(r));
            i = i + 1;
        }
        proof {
            let ls = lines@.map_values(|s: String| s@);
            assert forall|j: int| 0 <= j < ids@.len() implies #[trigger] ls[j] == list_line(
                self@.nodes[ids@[j]],
            ) by {
                assert(ls[j] == lines[j]@);
            }
            assert(lists_nodes_in_order(ls, self@.nodes, ids@));
        }
        lines
    }

    /// Sets the development flag of node `id` in the book.
    pub fn set_dev_mode_local(&mut self, id: u64, state: bool) -> (r: Result<(), String>)
        ensures
            old(self)@.nodes.contains_key(id) ==> r is Ok && final(self)@ == (NodeServiceView {
                nodes: old(self)@.nodes.insert(id, dev_record(old(self)@.nodes[id], state)),
                ..old(self)@
            }),
            !old(self)@.nodes.contains_key(id) ==> r is Err && r->Err_0@ == not_found_message(id)
                && final(self)@ == old(self)@,
    {
        match self.nodes.get(&id) {
            Some(n) => {
                let mut c = n.copy();
                c.config.dev_mode = state;
                self.put(id, c);
                Ok(())
            },
            None => Err(not_found(id)),
        }
    }

    /// The detailed line of node `id`.
    pub fn format_info_line(&self, id: u64) -> (r: Result<String, String>)
        ensures
            self@.nodes.contains_key(id) ==> r is Ok && r->Ok_0@ == info_line(self@.nodes[id]),
            !self@.nodes.contains_key(id) ==> r is Err && r->Err_0@ == not_found_message(id),
            self@.nodes.contains_key(id) ==> r->Ok_0@ == "Node "@ + decimal(
                self@.nodes[id].config.id as nat,
            ) + " => type="@ + node_type_title(self@.nodes[id].config.node_type) + ", name="@
                + self@.nodes[id].config.name + ", status="@ + node_status_title(
                self@.nodes[id].status,
            ) + ", dev="@ + (if self@.nodes[id].config.dev_mode {
                "true"@
            } else {
                "false"@
            }) + ", pid="@ + (match self@.nodes[id].pid {
                Some(p) => decimal(p as nat),
                None => "unknown"@,
            }),
            self@.nodes.contains_key(id) ==> exists|prefix: Seq<char>|
                r->Ok_0@ == prefix + ", dev="@ + (if self@.nodes[id].config.dev_mode {
                    "true"@
                } else {
                    "false"@
                }) + ", pid="@ + pid_text(self@.nodes[id].pid),
    {
        proof {
            if self@.nodes.contains_key(id) {
                lemma_info_line_shows_flag(self@.nodes[id]);
            }
            reveal_strlit("true");
            reveal_strlit("false");
            assert(bool_text(true) =~= "true"@);
            assert(bool_text(false) =~= "false"@);
        }
        match self.nodes.get(&id) {
            Some(r) => {
                let mut s = String::from_str("Node ");
                append_decimal(&mut s, r.config.id);
                s.append(" => type=");
                s.append(r.config.node_type.title().as_str());
                s.append(", name=");
                s.append(r.config.name.as_str());
                s.append(", status=");
                s.append(r.status.title().as_str());
                s.append(", dev=");
                append_bool(&mut s, r.config.dev_mode);
                s.append(", pid=");
                match r.pid {
                    Some(p) => append_decimal(&mut s, p as u64),
                    None => s.append("unknown"),
                }
                proof {
                    assert(s@ =~= info_line(self@.nodes[id]));
                }
                Ok(s)
            },
            None => Err(not_found(id)),
        }
    }

    /// Marks node `id` as failed, when known.
    pub fn mark_failed(&mut self, id: u64)
        ensures
            final(self)@ == (NodeServiceView {
                nodes: update_node(old(self)@.nodes, id, |r: NodeRecordView| failed_record(r)),
                ..old(self)@
            }),
    {
        if let Some(n) = self.nodes.get(&id) {
            let mut c = n.copy();
            c.status = NodeStatus::Failed;
            self.put(id, c);
        }
    }

    /// Marks node `id` as connected, when known.
    pub fn mark_connected(&mut self, id: u64)
        ensures
            final(self)@ == (NodeServiceView {
                nodes: update_node(old(self)@.nodes, id, |r: NodeRecordView| connected_record(r)),
                ..old(self)@
            }),
    {
        if let Some(n) = self.nodes.get(&id) {
            let mut c = n.copy();
            c.status = NodeStatus::Connected;
            c.connected = true;
            self.put(id, c);
        }
    }

    /// Records that node `id` has opened its RPC stream, when known.
    pub fn set_rpc_sender(&mut self, id: u64)
        ensures
            final(self)@ == (NodeServiceView {
                nodes: update_node(old(self)@.nodes, id, |r: NodeRecordView| rpc_ready_record(r)),
                ..old(self)@
            }),
    {
        if let Some(n) = self.nodes.get(&id) {
            let mut c = n.copy();
            c.rpc_ready = true;
            self.put(id, c);
        }
    }

    /// Marks node `id` as disconnected, with neither connection nor RPC stream, when known.
    pub fn mark_disconnected(&mut self, id: u64)
        ensures
            final(self)@ == (NodeServiceView {
                nodes: update_node(
                    old(self)@.nodes,
                    id,
                    |r: NodeRecordView| disconnected_record(r),
                ),
                ..old(self)@
            }),
    {
        if let Some(n) = self.nodes.get(&id) {
            let mut c = n.copy();
            c.status = NodeStatus::Disconnected;
            c.connected = false;
            c.rpc_ready = false;
            self.put(id, c);
        }
    }

    /// Whether node `id` has an open RPC stream.
    pub fn rpc_sender(&self, id: u64) -> (r: bool)
        ensures
            r == (self@.nodes.contains_key(id) && self@.nodes[id].rpc_ready),
    {
        match self.nodes.get(&id) {
            Some(n) => n.rpc_ready,
            None => false,
        }
    }

    /// Takes the next RPC request id: the counter's value. The counter then moves on by
    /// one, and stays where it is once it has reached `u64::MAX` (the last id is then
    /// handed out again).
    pub fn next_rpc_request_id(&mut self) -> (r: Result<u64, String>)
        ensures
            r == Ok::<u64, String>(old(self)@.rpc_seq),
            final(self)@ == (NodeServiceView {
                rpc_seq: saturating_next(old(self)@.rpc_seq),
                ..old(self)@
            }),
    {
        let request_id = self.rpc_seq;
        self.rpc_seq = self.rpc_seq.saturating_add(1);
        Ok(request_id)
    }

    /// An RPC request for `method` with `params`, numbered `request_id`.
    pub fn build_rpc_request(&self, request_id: u64, method: &str, params: Json) -> (r: RpcMessage)
        ensures
            r@ == (RpcMessageView {
                request_id: Some(request_id),
                method: Some(method@),
                params: Some(params@),
                result: None,
                error: None,
            }),
    {
        RpcMessage::request(request_id, method, params)
    }

    /// The parameters of a `set_dev` request: `{"state": <state>}`.
    pub fn build_set_dev_params(&self, state: bool) -> (r: Json)
        ensures
            r@ == JsonV::Object(seq![("state"@, JsonV::Bool(state))]),
    {
        set_dev_params(state)
    }

    /// Records that request `request_id` waits for a response.
    pub fn insert_pending_rpc(&mut self, request_id: u64)
        ensures
            final(self)@ == (NodeServiceView {
                pending: old(self)@.pending.insert(request_id),
                ..old(self)@
            }),
    {
        self.pending_rpc.insert(request_id);
    }

    /// Stops waiting for a response to request `request_id`.
    pub fn remove_pending_rpc(&mut self, request_id: u64)
        ensures
            final(self)@ == (NodeServiceView {
                pending: old(self)@.pending.remove(request_id),
                ..old(self)@
            }),
    {
        self.pending_rpc.remove(&request_id);
    }

    /// Concludes the wait for request `request_id`, made for method `method`: the
    /// response when one arrived; a dropped waiter is an error; on a timeout the request
    /// stops waiting and the timeout is reported.
    pub fn finish_rpc_request(&mut self, request_id: u64, method: &str, wait: RpcWait) -> (r:
        Result<RpcMessage, String>)
        ensures
            match wait {
                RpcWait::Answered(m) => r is Ok && r->Ok_0@ == m@ && final(self)@ == old(self)@,
                RpcWait::Closed => r is Err && r->Err_0@ == "RPC response channel closed"@
                    && final(self)@ == old(self)@,
                RpcWait::TimedOut => r is Err && r->Err_0@ == "RPC timeout for method "@ + method@
                    && final(self)@ == (NodeServiceView {
                    pending: old(self)@.pending.remove(request_id),
                    ..old(self)@
                }),
            },
    {
        match wait {
            RpcWait::Answered(m) => Ok(m),
            RpcWait::Closed => Err(String::from_str("RPC response channel closed")),
            RpcWait::TimedOut => {
                self.remove_pending_rpc(request_id);
                Err(rpc_timeout_message(method))
            },
        }
    }

    /// Concludes `node dev` for node `id` from how its `set_dev` request went: a
    /// response is reported; with no RPC stream only the book was changed; a failed
    /// request marks the node as failed and is passed on.
    pub fn conclude_set_dev(&mut self, id: u64, outcome: Result<Option<RpcMessage>, String>) -> (r:
        Result<DevReply, String>)
        ensures
            match outcome {
                Ok(Some(m)) => final(self)@ == old(self)@ && r is Ok && r->Ok_0 is Answered
                    && r->Ok_0->Answered_0@ == m@,
                Ok(None) => final(self)@ == old(self)@ && r is Ok && r->Ok_0 is LocalOnly
                    && r->Ok_0->LocalOnly_0@ == "Node "@ + decimal(id as nat)
                    + " not connected via RPC yet; only local state updated"@,
                Err(e) => r is Err && r->Err_0@ == e@ && final(self)@ == (NodeServiceView {
                    nodes: update_node(old(self)@.nodes, id, |n: NodeRecordView| failed_record(n)),
                    ..old(self)@
                }),
            },
    {
        match outcome {
            Ok(Some(m)) => Ok(DevReply::Answered(m)),
            Ok(None) => Ok(DevReply::LocalOnly(not_connected_line(id))),
            Err(e) => {
                self.mark_failed(id);
                Err(e)
            },
        }
    }

    /// Hands a message from a node's RPC stream to the request it answers, if that
    /// request is still waiting; the request then stops waiting.
    pub fn route_incoming_rpc(&mut self, message: RpcMessage) -> (r: RpcRouting)
        ensures
            answers_pending(message@, old(self)@.pending) ==> r == (RpcRouting::Delivered {
                request_id: message.request_id->0,
                message,
            }) && final(self)@ == (NodeServiceView {
                pending: old(self)@.pending.remove(message.request_id->0),
                ..old(self)@
            }),
            !answers_pending(message@, old(self)@.pending) ==> r == RpcRouting::Unclaimed(message)
                && final(self)@ == old(self)@,
    {
        if message.method.is_none() {
            if let Some(request_id) = message.request_id {
                if self.pending_rpc.contains(&request_id) {
                    self.pending_rpc.remove(&request_id);
                    return RpcRouting::Delivered { request_id, message };
                }
            }
        }
        RpcRouting::Unclaimed(message)
    }

    /// Prepares an RPC request to node `node_id`: when the node has an RPC stream, takes
    /// a request id (see [`NodeService::next_rpc_request_id`]), records the request as
    /// waiting and returns it with its message.
    pub fn begin_rpc_request(&mut self, node_id: u64, method: &str, params: Json) -> (r: Result<
        Option<(u64, RpcMessage)>,
        String,
    >)
        ensures
            !(old(self)@.nodes.contains_key(node_id) && old(self)@.nodes[node_id].rpc_ready) ==> r
                == Ok::<Option<(u64, RpcMessage)>, String>(None) && final(self)@ == old(self)@,
            old(self)@.nodes.contains_key(node_id) && old(self)@.nodes[node_id].rpc_ready ==> r is Ok
                && r->Ok_0 is Some && ({
                let (id, msg) = r->Ok_0->0;
                &&& id == old(self)@.rpc_seq
                &&& msg@ == (RpcMessageView {
                    request_id: Some(id),
                    method: Some(method@),
                    params: Some(params@),
                    result: None,
                    error: None,
                })
                &&& final(self)@ == (NodeServiceView {
                    rpc_seq: saturating_next(old(self)@.rpc_seq),
                    pending: old(self)@.pending.insert(id),
                    ..old(self)@
                })
            }),
    {
        if !self.rpc_sender(node_id) {
            return Ok(None);
        }
        let request_id = match self.next_rpc_request_id() {
            Ok(id) => id,
            Err(e) => return Err(e),
        };
        let request = self.build_rpc_request(request_id, method, params);
        self.insert_pending_rpc(request_id);
        Ok(Some((request_id, request)))
    }

    /// Takes an event in. Connection and stream events update the node they name when
    /// it is known; responses are routed to waiting requests; the returned action says
    /// what the caller does with the event's handles and what it prints.
    pub fn handle_event<C, S>(&mut self, event: &NodeEvent<C, S>) -> (a: EventAction)
        ensures
            match event {
                NodeEvent::Connected { node_id, .. } => {
                    &&& final(self)@ == (NodeServiceView {
                        nodes: update_node(
                            old(self)@.nodes,
                            *node_id,
                            |r: NodeRecordView| connected_record(r),
                        ),
                        ..old(self)@
                    })
                    &&& a == if old(self)@.nodes.contains_key(*node_id) {
                        EventAction::AttachConnection(*node_id)
                    } else {
                        EventAction::Nothing
                    }
                },
                NodeEvent::RpcStreamReady { node_id, .. } => {
                    &&& final(self)@ == (NodeServiceView {
                        nodes: update_node(
                            old(self)@.nodes,
                            *node_id,
                            |r: NodeRecordView| rpc_ready_record(r),
                        ),
                        ..old(self)@
                    })
                    &&& a == if old(self)@.nodes.contains_key(*node_id) {
                        EventAction::AttachSender(*node_id)
                    } else {
                        EventAction::Nothing
                    }
                },
                NodeEvent::RpcIncoming { node_id, message } => if message.method is Some {
                    a == EventAction::PrintIncomingCall(*node_id) && final(self)@ == old(self)@
                } else if answers_pending(message@, old(self)@.pending) {
                    a == EventAction::DeliverResponse(message.request_id->0) && final(self)@ == (
                    NodeServiceView {
                        pending: old(self)@.pending.remove(message.request_id->0),
                        ..old(self)@
                    })
                } else {
                    a == EventAction::Nothing && final(self)@ == old(self)@
                },
                NodeEvent::Log { node_id, record } => {
                    &&& final(self)@ == old(self)@
                    &&& a is Print
                    &&& a->Print_0@ == remote_log_line(
                        *node_id,
                        record.timestamp@,
                        record.level@,
                        record.source@,
                        record.message@,
                    )
                },
                NodeEvent::Disconnected { node_id, reason } => {
                    &&& final(self)@ == (NodeServiceView {
                        nodes: update_node(
                            old(self)@.nodes,
                            *node_id,
                            |r: NodeRecordView| disconnected_record(r),
                        ),
                        ..old(self)@
                    })
                    &&& if old(self)@.nodes.contains_key(*node_id) {
                        &&& a is Detach
                        &&& a->node_id == *node_id
                        &&& a->line@ == disconnect_line(*node_id, reason@)
                    } else {
                        a == EventAction::Nothing
                    }
                },
            },
    {
        match event {
            NodeEvent::Connected { node_id, .. } => {
                let known = self.contains(*node_id);
                self.mark_connected(*node_id);
                if known {
                    EventAction::AttachConnection(*node_id)
                } else {
                    EventAction::Nothing
                }
            },
            NodeEvent::RpcStreamReady { node_id, .. } => {
                let known = self.contains(*node_id);
                self.set_rpc_sender(*node_id);
                if known {
                    EventAction::AttachSender(*node_id)
                } else {
                    EventAction::Nothing
                }
            },
            NodeEvent::RpcIncoming { node_id, message } => {
                if message.method.is_some() {
                    EventAction::PrintIncomingCall(*node_id)
                } else {
                    match message.request_id {
                        Some(request_id) => {
                            if self.pending_rpc.contains(&request_id) {
                                self.pending_rpc.remove(&request_id);
                                EventAction::DeliverResponse(request_id)
                            } else {
                                EventAction::Nothing
                            }
                        },
                        None => EventAction::Nothing,
                    }
                }
            },
            NodeEvent::Log { node_id, record } => EventAction::Print(
                format_remote_log(*node_id, record),
            ),
            NodeEvent::Disconnected { node_id, reason } => {
                let known = self.contains(*node_id);
                self.mark_disconnected(*node_id);
                if known {
                    let mut line = String::from_str("Node ");
                    append_decimal(&mut line, *node_id);
                    line.append(" disconnected: ");
                    line.append(reason.as_str());
                    EventAction::Detach { node_id: *node_id, line }
                } else {
                    EventAction::Nothing
                }
            },
        }
    }

    /// The ids of all known nodes, in the map's iteration order.
    pub fn node_ids(&self) -> (ids: Vec<u64>)
        ensures
            ids@.no_duplicates(),
            ids@.to_set() == self@.nodes.dom(),
    {
        let mut ids: Vec<u64> = Vec::new();
        let ghost m = self.nodes@;
        for entry in it: self.nodes.iter()
            invariant
                m == self.nodes@,
                ids.len() == it.index(),
                it.seq() == vstd::std_specs::hash::spec_hash_map_iter(&self.nodes).remaining(),
                it.seq().no_duplicates(),
                forall|j: int| 0 <= j < ids.len() ==> ids@[j] == *it.seq()[j].0,
        {
            let (id, _) = entry;
            ids.push(*id);
        }
        proof {
            let v = vstd::std_specs::hash::spec_hash_map_iter(&self.nodes).remaining();
            assert(nodes_view(m).dom() =~= m.dom());
            assert forall|a: int, b: int| 0 <= a < b < ids.len() implies ids@[a] != ids@[b] by {
                if ids@[a] == ids@[b] {
                    assert(m[*v[a].0] == *v[a].1);
                    assert(m[*v[b].0] == *v[b].1);
                    assert(v[a] == v[b]);
                }
            }
            assert forall|id: u64| ids@.to_set().contains(id) <==> m.contains_key(id) by {
                if m.contains_key(id) {
                    assert(v.contains((&id, &m[id])));
                    let i = choose|i: int| 0 <= i < v.len() && v[i] == (&id, &m[id]);
                    assert(ids@[i] == id);
                }
                if ids@.to_set().contains(id) {
                    let i = choose|i: int| 0 <= i < ids.len() && ids@[i] == id;
                    assert(m.contains_key(*v[i].0));
                }
            }
            assert(ids@.to_set() =~= self@.nodes.dom());
        }
        ids
    }

    /// Marks every known node as disconnected, with neither connection nor RPC stream;
    /// the caller stops their processes.
    pub fn shutdown(&mut self)
        ensures
            final(self)@.nodes.dom() == old(self)@.nodes.dom(),
            forall|id: u64| #[trigger]
                final(self)@.nodes.contains_key(id) ==> final(self)@.nodes[id] == disconnected_record(
                    old(self)@.nodes[id],
                ),
            final(self)@.next_id == old(self)@.next_id,
            final(self)@.rpc_seq == old(self)@.rpc_seq,
            final(self)@.pending == old(self)@.pending,
            final(self)@.orchestrator_addr == old(self)@.orchestrator_addr,
    {
        let ids = self.node_ids();
        let ghost old_nodes = self@.nodes;
        let mut i: usize = 0;
        while i < ids.len()
            invariant
                i <= ids.len(),
                ids@.no_duplicates(),
                ids@.to_set() == old_nodes.dom(),
                self@.nodes.dom() == old_nodes.dom(),
                old_nodes == old(self)@.nodes,
                self@.next_id == old(self)@.next_id,
                self@.rpc_seq == old(self)@.rpc_seq,
                self@.pending == old(self)@.pending,
                self@.orchestrator_addr == old(self)@.orchestrator_addr,
                forall|j: int|
                    0 <= j < i ==> #[trigger] self@.nodes[ids@[j]] == disconnected_record(
                        old_nodes[ids@[j]],
                    ),
                forall|j: int|
                    i <= j < ids.len() ==> #[trigger] self@.nodes[ids@[j]] == old_nodes[ids@[j]],
            decreases ids.len() - i,
        {
            let id = ids[i];
            assert(ids@.to_set().contains(id));
            self.mark_disconnected(id);
            proof {
                assert(self@.nodes.dom() =~= old_nodes.dom());
                assert forall|j: int| i < j < ids.len() implies #[trigger] self@.nodes[ids@[j]]
                    == old_nodes[ids@[j]] by {
                    assert(ids@[j] != ids@[i as int]);
                }
                assert forall|j: int| 0 <= j < i implies #[trigger] self@.nodes[ids@[j]]
                    == disconnected_record(old_nodes[ids@[j]]) by {
                    assert(ids@[j] != ids@[i as int]);
                }
            }
            i = i + 1;
        }
        proof {
            assert forall|id: u64| #[trigger] self@.nodes.contains_key(id) implies self@.nodes[id]
                == disconnected_record(old(self)@.nodes[id]) by {
                assert(ids@.to_set().contains(id));
                let j = choose|j: int| 0 <= j < ids.len() && ids@[j] == id;
            }
        }
    }
}

/// The error for a node id that is not known.
fn not_found(id: u64) -> (r: String)
    ensures
        r@ == not_found_message(id),
{
    let mut s = String::from_str("Node ");
    append_decimal(&mut s, id);
    s.append(" not found");
    s
}

/// The parameters of a `set_dev` request: `{"state": <state>}`.
pub fn set_dev_params(state: bool) -> (r: Json)
    ensures
        r@ == JsonV::Object(seq![("state"@, JsonV::Bool(state))]),
{
    let mut es: Vec<(String, Json)> = Vec::new();
    es.push((String::from_str("state"), Json::Bool(state)));
    let r = Json::Object(es);
    proof {
        crate::json::lemma_entries_view(es@);
        assert(crate::json::entries_view(es@) =~= seq![("state"@, JsonV::Bool(state))]);
    }
    r
}

/// The error returned when a node does not answer request `method` in time.
pub fn rpc_timeout_message(method: &str) -> (r: String)
    ensures
        r@ == "RPC timeout for method "@ + method@,
{
    let mut s = String::from_str("RPC timeout for method ");
    s.append(method);
    s
}

/// A fresh node id is not the id of any known node, and the next one is larger.
pub proof fn lemma_allocated_ids_are_fresh_and_increasing(
    before: NodeServiceView,
    after: NodeServiceView,
    id: u64,
)
    requires
        before.next_id < u64::MAX,
        !before.nodes.contains_key(before.next_id),
        id == before.next_id,
        after == (NodeServiceView { next_id: (before.next_id + 1) as u64, ..before }),
    ensures
        !after.nodes.contains_key(id),
        after.next_id > id,
{
}

/// Request ids are handed out in increasing order: while the counter is below
/// `u64::MAX` and every waiting request has an id below it, a request begun by
/// [`NodeService::begin_rpc_request`] gets an id that no waiting request has, and
/// afterwards the waiting ids are still all below the counter. (At `u64::MAX` the
/// counter stays put and the last id is handed out again.)
pub proof fn lemma_request_ids_are_fresh(before: NodeServiceView, after: NodeServiceView, id: u64)
    requires
        forall|p: u64| #[trigger] before.pending.contains(p) ==> p < before.rpc_seq,
        before.rpc_seq < u64::MAX,
        id == before.rpc_seq,
        after == (NodeServiceView {
            rpc_seq: saturating_next(before.rpc_seq),
            pending: before.pending.insert(id),
            ..before
        }),
    ensures
        !before.pending.contains(id),
        forall|p: u64| #[trigger] after.pending.contains(p) ==> p < after.rpc_seq,
{
}

/// A counter moved on by one, staying at `u64::MAX` once it is there.
pub open spec fn saturating_next(n: u64) -> u64 {
    if n < u64::MAX {
        (n + 1) as u64
    } else {
        n
    }
}

/// The book is consistent: every node is filed under its own id, and every id is at
/// least one and below the next id to be handed out.
pub open spec fn book_consistent(v: NodeServiceView) -> bool {
    &&& v.next_id >= 1
    &&& forall|k: u64| #[trigger]
        v.nodes.contains_key(k) ==> v.nodes[k].config.id == k && 1 <= k < v.next_id
}

/// Starting a node keeps the book consistent: on a consistent book the id that
/// [`NodeService::allocate_node_id`] hands out is not in use (so the allocation
/// succeeds), and filing the node under that id with the settings that
/// [`NodeService::build_runtime_config`] gives it leaves the book consistent. Each
/// start thus takes the next id in turn, and no id is used twice.
pub proof fn lemma_start_keeps_book_consistent(
    before: NodeServiceView,
    after: NodeServiceView,
    id: u64,
    config: NodeConfigView,
    pid: Option<u32>,
)
    requires
        book_consistent(before),
        before.next_id < u64::MAX,
        id == before.next_id,
        config.id == id,
        after == (NodeServiceView {
            nodes: before.nodes.insert(id, started_record(config, pid)),
            next_id: (before.next_id + 1) as u64,
            ..before
        }),
    ensures
        !before.nodes.contains_key(id),
        after.nodes.contains_key(id),
        after.next_id == id + 1,
        book_consistent(after),
{
    assert forall|k: u64| #[trigger] after.nodes.contains_key(k) implies after.nodes[k].config.id
        == k && 1 <= k < after.next_id by {
        if k != id {
            assert(before.nodes.contains_key(k));
        }
    }
}

/// Changing the record of one node in a way that keeps its id (connecting,
/// disconnecting, failing, opening its RPC stream, setting its development flag) keeps
/// a consistent book consistent, whatever happens to the waiting requests.
pub proof fn lemma_record_updates_keep_book_consistent(
    before: NodeServiceView,
    after: NodeServiceView,
    id: u64,
    f: spec_fn(NodeRecordView) -> NodeRecordView,
)
    requires
        book_consistent(before),
        forall|r: NodeRecordView| #[trigger] f(r).config.id == r.config.id,
        after.nodes == update_node(before.nodes, id, f),
        after.next_id == before.next_id,
    ensures
        book_consistent(after),
{
    assert forall|k: u64| #[trigger] after.nodes.contains_key(k) implies after.nodes[k].config.id
        == k && 1 <= k < after.next_id by {
        assert(before.nodes.contains_key(k));
        if before.nodes.contains_key(id) && k == id {
            assert(f(before.nodes[id]).config.id == before.nodes[id].config.id);
        }
    }
}

/// The record changes that events, failures and flag changes make keep a node's id.
pub proof fn lemma_record_changes_keep_ids(r: NodeRecordView, state: bool)
    ensures
        connected_record(r).config.id == r.config.id,
        disconnected_record(r).config.id == r.config.id,
        failed_record(r).config.id == r.config.id,
        rpc_ready_record(r).config.id == r.config.id,
        dev_record(r, state).config.id == r.config.id,
{
}

/// Shutting down keeps a consistent book consistent.
pub proof fn lemma_shutdown_keeps_book_consistent(before: NodeServiceView, after: NodeServiceView)
    requires
        book_consistent(before),
        after.nodes.dom() == before.nodes.dom(),
        forall|id: u64| #[trigger]
            after.nodes.contains_key(id) ==> after.nodes[id] == disconnected_record(before.nodes[id]),
        after.next_id == before.next_id,
    ensures
        book_consistent(after),
{
    assert forall|k: u64| #[trigger] after.nodes.contains_key(k) implies after.nodes[k].config.id
        == k && 1 <= k < after.next_id by {
        assert(before.nodes.contains_key(k));
    }
}

/// A change to one node's record, as the book's methods make them.
pub enum RecordChange {
    Connected,
    Disconnected,
    Failed,
    RpcReady,
    Dev(bool),
}

/// A record after `c`.
pub open spec fn changed_record(r: NodeRecordView, c: RecordChange) -> NodeRecordView {
    match c {
        RecordChange::Connected => connected_record(r),
        RecordChange::Disconnected => disconnected_record(r),
        RecordChange::Failed => failed_record(r),
        RecordChange::RpcReady => rpc_ready_record(r),
        RecordChange::Dev(b) => dev_record(r, b),
    }
}

/// A change the node manager makes to the book: starting a node of a type with a
/// process id (allocating an id, building its settings and filing it), changing one
/// node's record, changing the request counter and the waiting requests, or shutting
/// down.
pub enum BookChange {
    Start(NodeType, Option<u32>),
    Touch(u64, RecordChange),
    Requests(u64, Set<u64>),
    Shutdown,
}

/// The book after one change, as the methods' own `ensures` give it.
pub open spec fn book_after(v: NodeServiceView, c: BookChange) -> NodeServiceView {
    match c {
        BookChange::Start(t, pid) => if v.next_id == u64::MAX {
            v
        } else if v.nodes.contains_key(v.next_id) {
            NodeServiceView { next_id: (v.next_id + 1) as u64, ..v }
        } else {
            NodeServiceView {
                nodes: v.nodes.insert(
                    v.next_id,
                    started_record(
                        NodeConfigView {
                            id: v.next_id,
                            node_type: t,
                            name: node_name(v.next_id),
                            dev_mode: false,
                            orchestrator_addr: v.orchestrator_addr,
                        },
                        pid,
                    ),
                ),
                next_id: (v.next_id + 1) as u64,
                ..v
            }
        },
        BookChange::Touch(id, rc) => NodeServiceView {
            nodes: update_node(v.nodes, id, |r: NodeRecordView| changed_record(r, rc)),
            ..v
        },
        BookChange::Requests(seq, pending) => NodeServiceView { rpc_seq: seq, pending, ..v },
        BookChange::Shutdown => NodeServiceView {
            nodes: v.nodes.map_values(|r: NodeRecordView| disconnected_record(r)),
            ..v
        },
    }
}

/// The book after a sequence of changes, in order.
pub open spec fn book_after_all(v: NodeServiceView, cs: Seq<BookChange>) -> NodeServiceView
    decreases cs.len(),
{
    if cs.len() == 0 {
        v
    } else {
        book_after(book_after_all(v, cs.drop_last()), cs.last())
    }
}

/// How many of the changes start a node.
pub open spec fn starts(cs: Seq<BookChange>) -> nat
    decreases cs.len(),
{
    if cs.len() == 0 {
        0
    } else {
        starts(cs.drop_last()) + if cs.last() is Start {
            1nat
        } else {
            0nat
        }
    }
}

/// Over any sequence of starts, record changes, request changes and shutdowns from a
/// consistent book, such as the empty one [`NodeService::new`] makes, the book stays
/// consistent, and while the id counter does not reach `u64::MAX` every start takes
/// the next id in turn: the counter ends `starts(cs)` above where it began, so from a
/// new book the `n`-th start gets id `n` and no id is used twice.
pub proof fn lemma_book_stays_consistent(v: NodeServiceView, cs: Seq<BookChange>)
    requires
        book_consistent(v),
        v.next_id + starts(cs) < u64::MAX,
    ensures
        book_consistent(book_after_all(v, cs)),
        book_after_all(v, cs).next_id == v.next_id + starts(cs),
    decreases cs.len(),
{
    if cs.len() > 0 {
        let rest = cs.drop_last();
        lemma_book_stays_consistent(v, rest);
        let before = book_after_all(v, rest);
        let after = book_after(before, cs.last());
        match cs.last() {
            BookChange::Start(t, pid) => {
                let config = NodeConfigView {
                    id: before.next_id,
                    node_type: t,
                    name: node_name(before.next_id),
                    dev_mode: false,
                    orchestrator_addr: before.orchestrator_addr,
                };
                assert(!before.nodes.contains_key(before.next_id));
                lemma_start_keeps_book_consistent(before, after, before.next_id, config, pid);
            },
            BookChange::Touch(id, rc) => {
                let f = |r: NodeRecordView| changed_record(r, rc);
                assert forall|r: NodeRecordView| #[trigger] f(r).config.id == r.config.id by {
                    lemma_record_changes_keep_ids(r, false);
                    if let RecordChange::Dev(b) = rc {
                        lemma_record_changes_keep_ids(r, b);
                    }
                }
                lemma_record_updates_keep_book_consistent(before, after, id, f);
            },
            BookChange::Requests(_, _) => {},
            BookChange::Shutdown => {
                assert(after.nodes.dom() =~= before.nodes.dom());
                lemma_shutdown_keeps_book_consistent(before, after);
            },
        }
    }
}

/// A node's listing line ends with its development flag after `, Dev: ` and whether it
/// has an RPC stream after `, RPC: `, each as `true` or `false`.
pub proof fn lemma_list_line_shows_flags(r: NodeRecordView)
    ensures
        exists|prefix: Seq<char>|
            list_line(r) == prefix + ", Dev: "@ + (if r.config.dev_mode {
                "true"@
            } else {
                "false"@
            }) + ", RPC: "@ + (if r.rpc_ready {
                "true"@
            } else {
                "false"@
            }),
{
    reveal_strlit("true");
    reveal_strlit("false");
    assert(bool_text(true) =~= "true"@);
    assert(bool_text(false) =~= "false"@);
    let prefix = "ID: "@ + decimal(r.config.id as nat) + ", Type: "@ + node_type_title(
        r.config.node_type,
    ) + ", Name: "@ + r.config.name + ", Status: "@ + node_status_title(r.status);
    assert(list_line(r) =~= prefix + ", Dev: "@ + (if r.config.dev_mode {
        "true"@
    } else {
        "false"@
    }) + ", RPC: "@ + (if r.rpc_ready {
        "true"@
    } else {
        "false"@
    }));
}

/// A node's detail line ends with its development flag after `, dev=` (as `true` or
/// `false`) and then its process id after `, pid=`.
pub proof fn lemma_info_line_shows_flag(r: NodeRecordView)
    ensures
        exists|prefix: Seq<char>|
            info_line(r) == prefix + ", dev="@ + (if r.config.dev_mode {
                "true"@
            } else {
                "false"@
            }) + ", pid="@ + pid_text(r.pid),
{
    reveal_strlit("true");
    reveal_strlit("false");
    assert(bool_text(true) =~= "true"@);
    assert(bool_text(false) =~= "false"@);
    let prefix = "Node "@ + decimal(r.config.id as nat) + " => type="@ + node_type_title(
        r.config.node_type,
    ) + ", name="@ + r.config.name + ", status="@ + node_status_title(r.status);
    assert(info_line(r) =~= prefix + ", dev="@ + (if r.config.dev_mode {
        "true"@
    } else {
        "false"@
    }) + ", pid="@ + pid_text(r.pid));
}

/// After [`NodeService::set_dev_mode_local`] sets node `id`'s flag to `b`, the node's
/// detail line reads `dev=` followed by `b`, whatever the node's connection state and
/// whatever the flag was before.
pub proof fn lemma_info_after_set_dev_reads_flag(v: NodeServiceView, id: u64, b: bool)
    requires
        v.nodes.contains_key(id),
    ensures
        ({
            let after = v.nodes.insert(id, dev_record(v.nodes[id], b));
            exists|prefix: Seq<char>|
                info_line(after[id]) == prefix + ", dev="@ + (if b {
                    "true"@
                } else {
                    "false"@
                }) + ", pid="@ + pid_text(v.nodes[id].pid)
        }),
{
    lemma_info_line_shows_flag(dev_record(v.nodes[id], b));
}

/// A response is handed to its waiter at most once: after it has been delivered, the
/// same message is no longer claimed by any waiting request.
pub proof fn lemma_response_delivered_once(pending: Set<u64>, m: RpcMessageView)
    requires
        answers_pending(m, pending),
    ensures
        !answers_pending(m, pending.remove(m.request_id->0)),
{
}

/// Events about nodes that are not in the book change nothing.
pub proof fn lemma_unknown_node_events_change_nothing(nodes: Map<u64, NodeRecordView>, id: u64)
    requires
        !nodes.contains_key(id),
    ensures
        update_node(nodes, id, |r: NodeRecordView| connected_record(r)) == nodes,
        update_node(nodes, id, |r: NodeRecordView| rpc_ready_record(r)) == nodes,
        update_node(nodes, id, |r: NodeRecordView| disconnected_record(r)) == nodes,
        update_node(nodes, id, |r: NodeRecordView| failed_record(r)) == nodes,
{
}

/// The line printed when a node has been started:
/// `Started node <id> (<Type>), pid=<pid>`.
pub fn started_line(node_id: u64, node_type: NodeType, pid: Option<u32>) -> (r: String)
    ensures
        r@ == "Started node "@ + decimal(node_id as nat) + " ("@ + node_type_title(node_type)
            + "), pid="@ + pid_text(pid),
{
    let mut s = String::from_str("Started node ");
    append_decimal(&mut s, node_id);
    s.append(" (");
    s.append(node_type.title().as_str());
    s.append("), pid=");
    match pid {
        Some(p) => append_decimal(&mut s, p as u64),
        None => s.append("unknown"),
    }
    s
}

/// The line printed when a node's flag was set in the book only, the node having no
/// RPC stream yet.
pub fn not_connected_line(node_id: u64) -> (r: String)
    ensures
        r@ == "Node "@ + decimal(node_id as nat) + " not connected via RPC yet; only local state updated"@,
{
    let mut s = String::from_str("Node ");
    append_decimal(&mut s, node_id);
    s.append(" not connected via RPC yet; only local state updated");
    s
}

/// The line printed with a node's answer to `info`, given the answer's result as
/// JSON text: `Node <id> rpc info: <json>`.
pub fn rpc_info_line(node_id: u64, json: &str) -> (r: String)
    ensures
        r@ == "Node "@ + decimal(node_id as nat) + " rpc info: "@ + json@,
{
    let mut s = String::from_str("Node ");
    append_decimal(&mut s, node_id);
    s.append(" rpc info: ");
    s.append(json);
    s
}

/// The line printed when a node's details cannot be asked for, the node having no RPC
/// stream.
pub fn info_unavailable_line(node_id: u64) -> (r: String)
    ensures
        r@ == "Node "@ + decimal(node_id as nat) + " rpc info unavailable: no RPC stream"@,
{
    let mut s = String::from_str("Node ");
    append_decimal(&mut s, node_id);
    s.append(" rpc info unavailable: no RPC stream");
    s
}

/// The line printed when asking a node for its details failed.
pub fn info_error_line(node_id: u64, error: &str) -> (r: String)
    ensures
        r@ == "Node "@ + decimal(node_id as nat) + " rpc info error: "@ + error@,
{
    let mut s = String::from_str("Node ");
    append_decimal(&mut s, node_id);
    s.append(" rpc info error: ");
    s.append(error);
    s
}

/// The line printed for a call a node makes to the orchestrator, given the call's JSON
/// text: `[node-<id> rpc] incoming call: <json>`.
pub fn incoming_call_line(node_id: u64, json: &str) -> (r: String)
    ensures
        r@ == "[node-"@ + decimal(node_id as nat) + " rpc] incoming call: "@ + json@,
{
    let mut s = String::from_str("[node-");
    append_decimal(&mut s, node_id);
    s.append(" rpc] incoming call: ");
    s.append(json);
    s
}

} // verus!
