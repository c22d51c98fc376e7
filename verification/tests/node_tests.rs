use germina::json::Json;
use germina::node::args::{node_process_args, stdio_prefix, try_parse_runtime_args, NodeRuntimeArgs};
use germina::node::events::{map_transport_event, NodeEvent, TransportEvent};
use germina::node::protocol::{
    format_remote_log, plain_log_record, stream_channel, stream_hello, unix_ts, unsupported_channel_message,
    LogRecord, RpcMessage, StreamChannel,
};
use germina::node::runtime::{invalid_payload_log, NodeRuntime};
use germina::node::{parse_node_type, Endpoint, HostAddr, NodeStatus, NodeType};

fn addr() -> Endpoint {
    Endpoint { host: HostAddr::V4(127, 0, 0, 1), port: 17171 }
}

fn strings(v: &[&str]) -> Vec<String> {
    v.iter().map(|s| s.to_string()).collect()
}

/// The address each argument denotes: only `127.0.0.1:17171` here.
fn addrs(args: &[String]) -> Vec<Option<Endpoint>> {
    args.iter().map(|a| if a == "127.0.0.1:17171" { Some(addr()) } else { None }).collect()
}

fn parse(v: &[&str]) -> Result<Option<NodeRuntimeArgs>, String> {
    let a = strings(v);
    try_parse_runtime_args(&a, &addrs(&a))
}

fn json_text(j: &Json) -> String {
    format!("{:?}", j)
}

#[test]
fn node_types_parse_ignoring_case() {
    assert_eq!(parse_node_type("client"), Ok(NodeType::Client));
    assert_eq!(parse_node_type("SERVER"), Ok(NodeType::Server));
    assert_eq!(parse_node_type("Tools"), Ok(NodeType::Tools));
    assert_eq!(parse_node_type("robot"), Err("Invalid node type: robot".to_string()));
}

#[test]
fn node_type_names_round_trip() {
    for t in [NodeType::Client, NodeType::Server, NodeType::Tools] {
        assert_eq!(parse_node_type(&t.to_string()), Ok(t));
        assert_eq!(t.as_cli_value(), t.to_string());
        assert_eq!(t.title(), format!("{:?}", t));
    }
    for s in [NodeStatus::Starting, NodeStatus::Connected, NodeStatus::Disconnected, NodeStatus::Failed] {
        assert_eq!(s.title(), format!("{:?}", s));
    }
}

#[test]
fn process_without_cli_is_not_a_node() {
    assert_eq!(parse(&["germina"]), Ok(None));
    assert_eq!(parse(&["germina", "--node-id", "3", "--dev"]), Ok(None));
}

#[test]
fn spawned_node_reads_back_its_settings() {
    for (id, t, dev) in [(1u64, NodeType::Client, false), (42, NodeType::Tools, true), (u64::MAX, NodeType::Server, true)] {
        let mut argv = vec!["/opt/germina/germina".to_string()];
        argv.extend(node_process_args("127.0.0.1:17171", id, t, dev));
        let parsed = try_parse_runtime_args(&argv, &addrs(&argv));
        assert_eq!(
            parsed,
            Ok(Some(NodeRuntimeArgs { orchestrator_addr: addr(), node_id: id, node_type: t, dev }))
        );
    }
}

#[test]
fn process_args_layout() {
    assert_eq!(
        node_process_args("127.0.0.1:17171", 7, NodeType::Server, true),
        strings(&["--cli", "127.0.0.1:17171", "--node-id", "7", "--node-type", "server", "--dev"])
    );
    assert_eq!(
        node_process_args("[::1]:1", 2, NodeType::Client, false),
        strings(&["--cli", "[::1]:1", "--node-id", "2", "--node-type", "client"])
    );
}

#[test]
fn runtime_args_errors() {
    assert_eq!(parse(&["g", "--cli"]), Err("Missing value for --cli".to_string()));
    assert_eq!(parse(&["g", "--cli", "nowhere"]), Err("Invalid --cli address".to_string()));
    assert_eq!(parse(&["g", "--node-id"]), Err("Missing value for --node-id".to_string()));
    assert_eq!(parse(&["g", "--node-id", "x"]), Err("Invalid --node-id".to_string()));
    assert_eq!(parse(&["g", "--node-type"]), Err("Missing value for --node-type".to_string()));
    assert_eq!(parse(&["g", "--node-type", "bot"]), Err("Invalid node type: bot".to_string()));
    assert_eq!(
        parse(&["g", "--cli", "127.0.0.1:17171"]),
        Err("--node-id is required in node mode".to_string())
    );
    assert_eq!(
        parse(&["g", "--cli", "127.0.0.1:17171", "--node-id", "1"]),
        Err("--node-type is required in node mode".to_string())
    );
    // The first error found while reading left to right wins.
    assert_eq!(parse(&["g", "--cli", "bad", "--node-id", "x"]), Err("Invalid --cli address".to_string()));
}

#[test]
fn unknown_arguments_are_skipped_and_later_options_win() {
    assert_eq!(
        parse(&["g", "--verbose", "--node-type", "tools", "--cli", "127.0.0.1:17171", "--node-id", "5", "--node-id", "6", "extra"]),
        Ok(Some(NodeRuntimeArgs { orchestrator_addr: addr(), node_id: 6, node_type: NodeType::Tools, dev: false }))
    );
}

#[test]
fn stdio_prefixes() {
    assert_eq!(stdio_prefix(3, NodeType::Client, false), "[node-3 Client stdout]");
    assert_eq!(stdio_prefix(3, NodeType::Tools, true), "[node-3 Tools stderr]");
}

fn request(id: u64, method: &str, params: Option<Json>) -> RpcMessage {
    RpcMessage { request_id: Some(id), method: Some(method.to_string()), params, result: None, error: None }
}

fn state_params(v: Json) -> Json {
    Json::Object(vec![("state".to_string(), v)])
}

#[test]
fn set_dev_then_info_reports_the_new_flag() {
    let mut rt = NodeRuntime::new(9, NodeType::Server, false);
    let reply = rt.handle_message(&request(1, "set_dev", Some(state_params(Json::Bool(true)))));
    assert!(rt.dev_mode);
    let resp = reply.response.unwrap();
    assert_eq!(resp.request_id, Some(1));
    assert_eq!(resp.method, None);
    assert_eq!(resp.error, None);
    assert_eq!(
        json_text(&resp.result.unwrap()),
        json_text(&Json::Object(vec![("ok".into(), Json::Bool(true)), ("dev".into(), Json::Bool(true))]))
    );
    let log = reply.log.unwrap();
    assert_eq!((log.level.as_str(), log.source.as_str(), log.message.as_str()), ("INFO", "rpc", "dev mode switched to true"));

    let reply = rt.handle_message(&request(2, "info", None));
    assert!(reply.log.is_none());
    let result = reply.response.unwrap().result.unwrap();
    assert_eq!(
        json_text(&result),
        json_text(&Json::Object(vec![
            ("node_id".into(), Json::Number("9".into())),
            ("node_type".into(), Json::Str("Server".into())),
            ("dev".into(), Json::Bool(true)),
            ("status".into(), Json::Str("running".into())),
        ]))
    );
    assert_eq!(json_text(result.get("dev").unwrap()), json_text(&Json::Bool(true)));
}

#[test]
fn set_dev_without_boolean_state_is_refused() {
    let mut rt = NodeRuntime::new(1, NodeType::Client, true);
    for params in [None, Some(state_params(Json::Str("on".into()))), Some(Json::Array(vec![])), Some(Json::Object(vec![]))] {
        let reply = rt.handle_message(&request(4, "set_dev", params));
        let resp = reply.response.unwrap();
        assert_eq!(resp.error.as_deref(), Some("Missing params.state bool"));
        assert!(resp.result.is_none());
        assert!(reply.log.is_none());
        assert!(rt.dev_mode);
    }
}

#[test]
fn ping_and_unknown_methods() {
    let mut rt = NodeRuntime::new(1, NodeType::Tools, false);
    let resp = rt.handle_message(&request(5, "ping", None)).response.unwrap();
    assert_eq!(json_text(&resp.result.unwrap()), json_text(&Json::Object(vec![("pong".into(), Json::Bool(true))])));
    let resp = rt.handle_message(&request(6, "reboot", None)).response.unwrap();
    assert_eq!(resp.error.as_deref(), Some("Unsupported method: reboot"));
    assert_eq!(resp.request_id, Some(6));
}

#[test]
fn responses_are_not_answered() {
    let mut rt = NodeRuntime::new(1, NodeType::Tools, false);
    let m = RpcMessage { request_id: Some(3), method: None, params: None, result: Some(Json::Null), error: None };
    let reply = rt.handle_message(&m);
    assert!(reply.response.is_none() && reply.log.is_none());
}

#[test]
fn runtime_log_lines() {
    let rt = NodeRuntime::new(12, NodeType::Client, true);
    let l = rt.startup_log();
    assert_eq!((l.level.as_str(), l.source.as_str(), l.message.as_str()), ("INFO", "node-runtime", "node 12 (Client) connected; dev=true"));
    let l = invalid_payload_log("expected value at line 1");
    assert_eq!((l.level.as_str(), l.source.as_str(), l.message.as_str()), ("WARN", "rpc", "Invalid RPC payload: expected value at line 1"));
}

#[test]
fn stream_channels() {
    assert_eq!(stream_channel("log"), StreamChannel::Log);
    assert_eq!(stream_channel("rpc"), StreamChannel::Rpc);
    assert_eq!(stream_channel("RPC"), StreamChannel::Unsupported);
    assert_eq!(unsupported_channel_message("video"), "Unsupported stream channel: video");
}

#[test]
fn log_records() {
    let r = plain_log_record("  hello world \r\n", "100".to_string());
    assert_eq!(r, LogRecord { timestamp: "100".into(), level: "INFO".into(), source: "plain".into(), message: "hello world".into() });
    assert_eq!(format_remote_log(4, &r), "[node-4 remote-log 100 INFO plain] hello world");
    let ts = unix_ts();
    assert!(ts.parse::<u64>().unwrap() > 1_600_000_000);
}

#[test]
fn transport_events_map_one_to_one() {
    match map_transport_event::<u8, u16>(TransportEvent::Connected { node_id: 1, connection: 7 }) {
        NodeEvent::Connected { node_id: 1, connection: 7 } => {}
        _ => panic!("wrong event"),
    }
    match map_transport_event::<u8, u16>(TransportEvent::RpcStreamReady { node_id: 2, sender: 9 }) {
        NodeEvent::RpcStreamReady { node_id: 2, sender: 9 } => {}
        _ => panic!("wrong event"),
    }
    match map_transport_event::<u8, u16>(TransportEvent::Disconnected { node_id: 3, reason: "bye".into() }) {
        NodeEvent::Disconnected { node_id: 3, reason } => assert_eq!(reason, "bye"),
        _ => panic!("wrong event"),
    }
    let rec = LogRecord { timestamp: "1".into(), level: "I".into(), source: "s".into(), message: "m".into() };
    match map_transport_event::<u8, u16>(TransportEvent::Log { node_id: 4, record: rec.clone() }) {
        NodeEvent::Log { node_id: 4, record } => assert_eq!(record, rec),
        _ => panic!("wrong event"),
    }
    let msg = request(8, "ping", None);
    match map_transport_event::<u8, u16>(TransportEvent::RpcIncoming { node_id: 5, message: msg }) {
        NodeEvent::RpcIncoming { node_id: 5, message } => assert_eq!(message.request_id, Some(8)),
        _ => panic!("wrong event"),
    }
}

#[test]
fn greetings_name_their_channel() {
    let rpc = stream_hello(7, true);
    assert_eq!((rpc.node_id, rpc.channel.as_str()), (7, "rpc"));
    assert_eq!(stream_channel(&rpc.channel), StreamChannel::Rpc);
    let log = stream_hello(7, false);
    assert_eq!(log.channel, "log");
    assert_eq!(stream_channel(&log.channel), StreamChannel::Log);
}

#[test]
fn log_lines_become_stamped_records() {
    let rec = invalid_payload_log("expected value").into_record("12".to_string());
    assert_eq!(
        rec,
        LogRecord {
            timestamp: "12".into(),
            level: "WARN".into(),
            source: "rpc".into(),
            message: "Invalid RPC payload: expected value".into()
        }
    );
}

#[test]
fn clock_readings_become_timestamps() {
    assert_eq!(germina::node::protocol::timestamp_text(Some(1700000000)), "1700000000");
    assert_eq!(germina::node::protocol::timestamp_text(Some(0)), "0");
    assert_eq!(germina::node::protocol::timestamp_text(None), "0");
    assert_eq!(germina::node::protocol::rpc_stream_closed_reason(), "RPC stream closed");
}
