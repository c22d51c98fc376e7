use germina::node::runtime::NodeRuntime;
use germina::json::Json;
use germina::node::events::NodeEvent;
use germina::node::protocol::{LogRecord, RpcMessage};
use germina::node::service::{
    incoming_call_line, info_error_line, info_unavailable_line, not_connected_line,
    rpc_info_line, rpc_timeout_message, set_dev_params, started_line, DevReply, EventAction,
    NodeService, RpcRouting, RpcWait,
};
use germina::node::{Endpoint, HostAddr, NodeStatus, NodeType};

fn addr() -> Endpoint {
    Endpoint { host: HostAddr::V4(127, 0, 0, 1), port: 17171 }
}

fn start(s: &mut NodeService, t: NodeType, pid: Option<u32>) -> u64 {
    let id = s.allocate_node_id().unwrap();
    let cfg = s.build_runtime_config(id, t);
    s.register_started_node(cfg, pid);
    id
}

fn response(id: u64) -> RpcMessage {
    RpcMessage { request_id: Some(id), method: None, params: None, result: Some(Json::Bool(true)), error: None }
}

#[test]
fn node_ids_are_fresh_and_increasing() {
    let mut s = NodeService::new(addr());
    let a = start(&mut s, NodeType::Client, Some(100));
    let b = start(&mut s, NodeType::Server, None);
    assert_eq!((a, b), (1, 2));
    assert_eq!(s.len(), 2);
    let c = s.allocate_node_id().unwrap();
    assert_eq!(c, 3);
    assert!(!s.contains(c));
}

#[test]
fn runtime_config_of_a_new_node() {
    let s = NodeService::new(addr());
    let c = s.build_runtime_config(7, NodeType::Tools);
    assert_eq!((c.id, c.node_type, c.name.as_str(), c.dev_mode, c.orchestrator_addr), (7, NodeType::Tools, "node-7", false, addr()));
    assert_eq!(s.orchestrator_addr(), addr());
}

#[test]
fn listing_and_info_lines() {
    let mut s = NodeService::new(addr());
    let a = start(&mut s, NodeType::Client, Some(4242));
    let b = start(&mut s, NodeType::Server, None);
    let mut lines = s.list_lines();
    lines.sort();
    assert_eq!(
        lines,
        vec![
            "ID: 1, Type: Client, Name: node-1, Status: Starting, Dev: false, RPC: false".to_string(),
            "ID: 2, Type: Server, Name: node-2, Status: Starting, Dev: false, RPC: false".to_string(),
        ]
    );
    assert_eq!(s.format_info_line(a).unwrap(), "Node 1 => type=Client, name=node-1, status=Starting, dev=false, pid=4242");
    assert_eq!(s.format_info_line(b).unwrap(), "Node 2 => type=Server, name=node-2, status=Starting, dev=false, pid=unknown");
    assert_eq!(s.format_info_line(9).unwrap_err(), "Node 9 not found");
}

#[test]
fn dev_mode_is_set_in_the_book() {
    let mut s = NodeService::new(addr());
    let a = start(&mut s, NodeType::Client, None);
    s.set_dev_mode_local(a, true).unwrap();
    assert!(s.node(a).unwrap().config.dev_mode);
    assert_eq!(s.set_dev_mode_local(5, true).unwrap_err(), "Node 5 not found");
}

#[test]
fn status_transitions() {
    let mut s = NodeService::new(addr());
    let a = start(&mut s, NodeType::Client, None);
    s.mark_connected(a);
    assert_eq!(s.node(a).unwrap().status, NodeStatus::Connected);
    assert!(s.node(a).unwrap().connected);
    s.set_rpc_sender(a);
    assert!(s.rpc_sender(a));
    s.mark_disconnected(a);
    let n = s.node(a).unwrap();
    assert_eq!((n.status, n.connected, n.rpc_ready), (NodeStatus::Disconnected, false, false));
    s.mark_failed(a);
    assert_eq!(s.node(a).unwrap().status, NodeStatus::Failed);
    // Unknown nodes change nothing.
    s.mark_connected(77);
    s.set_rpc_sender(77);
    s.mark_disconnected(77);
    s.mark_failed(77);
    assert!(!s.contains(77));
    assert_eq!(s.len(), 1);
}

#[test]
fn rpc_requests_are_numbered_and_routed_once() {
    let mut s = NodeService::new(addr());
    let a = start(&mut s, NodeType::Client, None);
    assert!(s.begin_rpc_request(a, "info", Json::Object(vec![])).unwrap().is_none());
    s.set_rpc_sender(a);
    let (id1, req) = s.begin_rpc_request(a, "set_dev", set_dev_params(true)).unwrap().unwrap();
    assert_eq!(id1, 1);
    assert_eq!(req.request_id, Some(1));
    assert_eq!(req.method.as_deref(), Some("set_dev"));
    assert_eq!(format!("{:?}", req.params.unwrap()), format!("{:?}", Json::Object(vec![("state".into(), Json::Bool(true))])));
    let (id2, _) = s.begin_rpc_request(a, "info", Json::Object(vec![])).unwrap().unwrap();
    assert_eq!(id2, 2);
    match s.route_incoming_rpc(response(id1)) {
        RpcRouting::Delivered { request_id, message } => {
            assert_eq!(request_id, 1);
            assert_eq!(message.request_id, Some(1));
        }
        RpcRouting::Unclaimed(_) => panic!("response not delivered"),
    }
    match s.route_incoming_rpc(response(id1)) {
        RpcRouting::Unclaimed(m) => assert_eq!(m.request_id, Some(1)),
        RpcRouting::Delivered { .. } => panic!("response delivered twice"),
    }
    s.remove_pending_rpc(id2);
    assert!(matches!(s.route_incoming_rpc(response(id2)), RpcRouting::Unclaimed(_)));
    let call = RpcMessage { request_id: Some(2), method: Some("hello".into()), params: None, result: None, error: None };
    assert!(matches!(s.route_incoming_rpc(call), RpcRouting::Unclaimed(_)));
    assert_eq!(s.next_rpc_request_id().unwrap(), 3);
}

#[test]
fn events_update_the_book() {
    let mut s = NodeService::new(addr());
    let a = start(&mut s, NodeType::Server, None);
    assert_eq!(s.handle_event::<(), ()>(&NodeEvent::Connected { node_id: a, connection: () }), EventAction::AttachConnection(a));
    assert_eq!(s.node(a).unwrap().status, NodeStatus::Connected);
    assert_eq!(s.handle_event::<(), ()>(&NodeEvent::Connected { node_id: 99, connection: () }), EventAction::Nothing);
    assert_eq!(s.handle_event::<(), ()>(&NodeEvent::RpcStreamReady { node_id: a, sender: () }), EventAction::AttachSender(a));
    assert!(s.rpc_sender(a));
    let (rid, _) = s.begin_rpc_request(a, "info", Json::Object(vec![])).unwrap().unwrap();
    assert_eq!(s.handle_event::<(), ()>(&NodeEvent::RpcIncoming { node_id: a, message: response(rid) }), EventAction::DeliverResponse(rid));
    assert_eq!(s.handle_event::<(), ()>(&NodeEvent::RpcIncoming { node_id: a, message: response(rid) }), EventAction::Nothing);
    let call = RpcMessage { request_id: None, method: Some("hello".into()), params: None, result: None, error: None };
    assert_eq!(s.handle_event::<(), ()>(&NodeEvent::RpcIncoming { node_id: a, message: call }), EventAction::PrintIncomingCall(a));
    let record = LogRecord { timestamp: "5".into(), level: "INFO".into(), source: "rpc".into(), message: "hi".into() };
    assert_eq!(
        s.handle_event::<(), ()>(&NodeEvent::Log { node_id: a, record }),
        EventAction::Print("[node-1 remote-log 5 INFO rpc] hi".into())
    );
    assert_eq!(
        s.handle_event::<(), ()>(&NodeEvent::Disconnected { node_id: a, reason: "RPC stream closed".into() }),
        EventAction::Detach { node_id: a, line: "Node 1 disconnected: RPC stream closed".into() }
    );
    assert!(!s.rpc_sender(a));
    assert_eq!(
        s.handle_event::<(), ()>(&NodeEvent::Disconnected { node_id: 42, reason: "x".into() }),
        EventAction::Nothing
    );
}

#[test]
fn shutdown_disconnects_every_node() {
    let mut s = NodeService::new(addr());
    let a = start(&mut s, NodeType::Client, Some(1));
    let b = start(&mut s, NodeType::Server, Some(2));
    s.mark_connected(a);
    s.set_rpc_sender(b);
    s.shutdown();
    for id in [a, b] {
        let n = s.node(id).unwrap();
        assert_eq!((n.status, n.connected, n.rpc_ready), (NodeStatus::Disconnected, false, false));
    }
    assert_eq!(s.len(), 2);
    let mut ids = s.node_ids();
    ids.sort();
    assert_eq!(ids, vec![1, 2]);
}

#[test]
fn manager_lines() {
    assert_eq!(started_line(3, NodeType::Tools, Some(77)), "Started node 3 (Tools), pid=77");
    assert_eq!(started_line(3, NodeType::Tools, None), "Started node 3 (Tools), pid=unknown");
    assert_eq!(not_connected_line(2), "Node 2 not connected via RPC yet; only local state updated");
    assert_eq!(info_unavailable_line(2), "Node 2 rpc info unavailable: no RPC stream");
    assert_eq!(info_error_line(2, "RPC timeout for method info"), "Node 2 rpc info error: RPC timeout for method info");
    assert_eq!(incoming_call_line(2, "{}"), "[node-2 rpc] incoming call: {}");
    assert_eq!(rpc_timeout_message("info"), "RPC timeout for method info");
    assert_eq!(rpc_info_line(4, "null"), "Node 4 rpc info: null");
}

#[test]
fn waits_conclude_requests() {
    let mut s = NodeService::new(addr());
    let a = start(&mut s, NodeType::Client, None);
    s.set_rpc_sender(a);
    let (rid, _) = s.begin_rpc_request(a, "info", Json::Object(vec![])).unwrap().unwrap();
    let m = s.finish_rpc_request(rid, "info", RpcWait::Answered(response(rid))).unwrap();
    assert_eq!(m.request_id, Some(rid));
    assert_eq!(s.finish_rpc_request(rid, "info", RpcWait::Closed).unwrap_err(), "RPC response channel closed");
    // Still waiting until the timeout is concluded.
    assert!(matches!(s.route_incoming_rpc(response(rid)), RpcRouting::Delivered { .. }));
    let (rid2, _) = s.begin_rpc_request(a, "ping", Json::Null).unwrap().unwrap();
    assert_eq!(s.finish_rpc_request(rid2, "ping", RpcWait::TimedOut).unwrap_err(), "RPC timeout for method ping");
    assert!(matches!(s.route_incoming_rpc(response(rid2)), RpcRouting::Unclaimed(_)));
}

#[test]
fn set_dev_conclusions() {
    let mut s = NodeService::new(addr());
    let a = start(&mut s, NodeType::Client, None);
    match s.conclude_set_dev(a, Ok(Some(response(1)))).unwrap() {
        DevReply::Answered(m) => assert_eq!(m.request_id, Some(1)),
        DevReply::LocalOnly(_) => panic!("answer lost"),
    }
    match s.conclude_set_dev(a, Ok(None)).unwrap() {
        DevReply::LocalOnly(line) => assert_eq!(line, "Node 1 not connected via RPC yet; only local state updated"),
        DevReply::Answered(_) => panic!("no answer expected"),
    }
    assert_eq!(s.node(a).unwrap().status, NodeStatus::Starting);
    assert_eq!(s.conclude_set_dev(a, Err("RPC timeout for method set_dev".into())).unwrap_err(), "RPC timeout for method set_dev");
    assert_eq!(s.node(a).unwrap().status, NodeStatus::Failed);
}

#[test]
fn a_node_answer_reaches_the_waiting_request() {
    let mut s = NodeService::new(addr());
    let a = start(&mut s, NodeType::Server, None);
    s.set_rpc_sender(a);
    let (rid, request) = s.begin_rpc_request(a, "set_dev", set_dev_params(true)).unwrap().unwrap();
    let mut node = NodeRuntime::new(a, NodeType::Server, false);
    let reply = node.handle_message(&request);
    assert!(node.dev_mode);
    let response = reply.response.unwrap();
    assert_eq!(response.request_id, Some(rid));
    assert_eq!(format!("{:?}", response.result.as_ref().unwrap().get("dev")), format!("{:?}", Some(&Json::Bool(true))));
    assert_eq!(
        s.handle_event::<(), ()>(&NodeEvent::RpcIncoming { node_id: a, message: response }),
        EventAction::DeliverResponse(rid)
    );
}
