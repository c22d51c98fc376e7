//! Events about node connections, as the transport reports them and as the node
//! manager consumes them. The connection and stream handles are carried through
//! unchanged, whatever their type.
use crate::node::protocol::{LogRecord, RpcMessage};
use vstd::prelude::*;

verus! {

/// An event raised by the transport layer. `C` is a connection handle and `S` a
/// handle on a stream that RPC requests are written to.
pub enum TransportEvent<C, S> {
    Connected { node_id: u64, connection: C },
    RpcStreamReady { node_id: u64, sender: S },
    RpcIncoming { node_id: u64, message: RpcMessage },
    Log { node_id: u64, record: LogRecord },
    Disconnected { node_id: u64, reason: String },
}

/// An event as the node manager consumes it.
pub enum NodeEvent<C, S> {
    Connected { node_id: u64, connection: C },
    RpcStreamReady { node_id: u64, sender: S },
    RpcIncoming { node_id: u64, message: RpcMessage },
    Log { node_id: u64, record: LogRecord },
    Disconnected { node_id: u64, reason: String },
}

/// The node-manager event that carries the same variant and payload as a transport event.
pub open spec fn mapped_event<C, S>(e: TransportEvent<C, S>) -> NodeEvent<C, S> {
    match e {
        TransportEvent::Connected { node_id, connection } => NodeEvent::Connected {
            node_id,
            connection,
        },
        TransportEvent::RpcStreamReady { node_id, sender } => NodeEvent::RpcStreamReady {
            node_id,
            sender,
        },
        TransportEvent::RpcIncoming { node_id, message } => NodeEvent::RpcIncoming {
            node_id,
            message,
        },
        TransportEvent::Log { node_id, record } => NodeEvent::Log { node_id, record },
        TransportEvent::Disconnected { node_id, reason } => NodeEvent::Disconnected {
            node_id,
            reason,
        },
    }
}

/// Turns a transport event into the node-manager event with the same variant and payload.
pub fn map_transport_event<C, S>(event: TransportEvent<C, S>) -> (r: NodeEvent<C, S>)
    ensures
        r == mapped_event(event),
{
    match event {
        TransportEvent::Connected { node_id, connection } => NodeEvent::Connected {
            node_id,
            connection,
        },
        TransportEvent::RpcStreamReady { node_id, sender } => NodeEvent::RpcStreamReady {
            node_id,
            sender,
        },
        TransportEvent::RpcIncoming { node_id, message } => NodeEvent::RpcIncoming {
            node_id,
            message,
        },
        TransportEvent::Log { node_id, record } => NodeEvent::Log { node_id, record },
        TransportEvent::Disconnected { node_id, reason } => NodeEvent::Disconnected {
            node_id,
            reason,
        },
    }
}

impl<C, S> NodeEvent<C, S> {
    /// The node that this event concerns.
    pub open spec fn node(&self) -> u64 {
        match self {
            NodeEvent::Connected { node_id, .. } => *node_id,
            NodeEvent::RpcStreamReady { node_id, .. } => *node_id,
            NodeEvent::RpcIncoming { node_id, .. } => *node_id,
            NodeEvent::Log { node_id, .. } => *node_id,
            NodeEvent::Disconnected { node_id, .. } => *node_id,
        }
    }
}

} // verus!
