//! A node's side of the RPC protocol: how a running node answers the requests the
//! orchestrator sends it.
use crate::json::{entries_get, entries_view, get_field, Json, JsonV};
use crate::node::protocol::{LogRecord, RpcMessage, RpcMessageView};
use crate::node::service::answers_pending;
use crate::node::{node_type_title, NodeType};
use crate::text::{append_bool, bool_text, decimal, str_eq, u64_to_decimal};
use vstd::prelude::*;

verus! {

/// A log line a node sends: level, source and message (the time stamp is added when
/// it is sent).
#[derive(Clone, Debug, PartialEq)]
pub struct LogLine {
    pub level: String,
    pub source: String,
    pub message: String,
}

/// The mathematical form of a [`LogLine`].
pub struct LogLineView {
    pub level: Seq<char>,
    pub source: Seq<char>,
    pub message: Seq<char>,
}

impl View for LogLine {
    type V = LogLineView;

    open spec fn view(&self) -> LogLineView {
        LogLineView { level: self.level@, source: self.source@, message: self.message@ }
    }
}

impl LogLine {
    /// The record sent for this line, stamped with `timestamp`.
    pub fn into_record(self, timestamp: String) -> (r: LogRecord)
        ensures
            r.timestamp == timestamp,
            r.level@ == self.level@,
            r.source@ == self.source@,
            r.message@ == self.message@,
    {
        LogRecord { timestamp, level: self.level, source: self.source, message: self.message }
    }
}

/// What a node does in answer to one message: the response it sends, if any, and the
/// log line it sends, if any.
#[derive(Debug)]
pub struct RpcReply {
    pub response: Option<RpcMessage>,
    pub log: Option<LogLine>,
}

/// The mathematical form of a node's answer to one message, with its development flag
/// afterwards.
pub struct RuntimeStep {
    pub dev: bool,
    pub response: Option<RpcMessageView>,
    pub log: Option<LogLineView>,
}

/// The state of a running node.
#[derive(Clone, Copy, Debug, PartialEq, Eq)]
pub struct NodeRuntime {
    pub node_id: u64,
    pub node_type: NodeType,
    pub dev_mode: bool,
}

/// The flag a `set_dev` request asks for: its parameters' boolean `state` field.
pub open spec fn set_dev_state(params: Option<JsonV>) -> Option<bool> {
    match params {
        Some(p) => match get_field(p, "state"@) {
            Some(JsonV::Bool(b)) => Some(b),
            _ => None,
        },
        None => None,
    }
}

/// The result of a `set_dev` request: `{"ok": true, "dev": <dev>}`.
pub open spec fn set_dev_result(dev: bool) -> JsonV {
    JsonV::Object(seq![("ok"@, JsonV::Bool(true)), ("dev"@, JsonV::Bool(dev))])
}

/// The result of an `info` request:
/// `{"node_id": <id>, "node_type": "<Type>", "dev": <dev>, "status": "running"}`.
pub open spec fn info_result(id: u64, t: NodeType, dev: bool) -> JsonV {
    JsonV::Object(
        seq![
            ("node_id"@, JsonV::Number(decimal(id as nat))),
            ("node_type"@, JsonV::Str(node_type_title(t))),
            ("dev"@, JsonV::Bool(dev)),
            ("status"@, JsonV::Str("running"@)),
        ],
    )
}

/// The result of a `ping` request: `{"pong": true}`.
pub open spec fn pong_result() -> JsonV {
    JsonV::Object(seq![("pong"@, JsonV::Bool(true))])
}

/// A successful response.
pub open spec fn success_view(request_id: Option<u64>, result: JsonV) -> RpcMessageView {
    RpcMessageView { request_id, method: None, params: None, result: Some(result), error: None }
}

/// A failed response.
pub open spec fn failure_view(request_id: Option<u64>, error: Seq<char>) -> RpcMessageView {
    RpcMessageView { request_id, method: None, params: None, result: None, error: Some(error) }
}

/// How node `id` of type `t` with development flag `dev` answers message `m`.
/// Messages without a method are not answered. `set_dev` sets the flag from its
/// parameters and logs the change; `info` describes the node; `ping` answers `pong`;
/// any other method is refused.
pub open spec fn runtime_step(id: u64, t: NodeType, dev: bool, m: RpcMessageView) -> RuntimeStep {
    match m.method {
        None => RuntimeStep { dev, response: None, log: None },
        Some(method) => if method == "set_dev"@ {
            match set_dev_state(m.params) {
                Some(b) => RuntimeStep {
                    dev: b,
                    response: Some(success_view(m.request_id, set_dev_result(b))),
                    log: Some(
                        LogLineView {
                            level: "INFO"@,
                            source: "rpc"@,
                            message: "dev mode switched to "@ + bool_text(b),
                        },
                    ),
                },
                None => RuntimeStep {
                    dev,
                    response: Some(failure_view(m.request_id, "Missing params.state bool"@)),
                    log: None,
                },
            }
        } else if method == "info"@ {
            RuntimeStep {
                dev,
                response: Some(success_view(m.request_id, info_result(id, t, dev))),
                log: None,
            }
        } else if method == "ping"@ {
            RuntimeStep { dev, response: Some(success_view(m.request_id, pong_result())), log: None }
        } else {
            RuntimeStep {
                dev,
                response: Some(failure_view(m.request_id, "Unsupported method: "@ + method)),
                log: None,
            }
        },
    }
}

/// The view of an optional response.
pub open spec fn opt_response(o: Option<RpcMessage>) -> Option<RpcMessageView> {
    match o {
        Some(m) => Some(m@),
        None => None,
    }
}

/// The view of an optional log line.
pub open spec fn opt_log(o: Option<LogLine>) -> Option<LogLineView> {
    match o {
        Some(l) => Some(l@),
        None => None,
    }
}

/// A JSON boolean.
fn jbool(b: bool) -> (r: Json)
    ensures
        r@ == JsonV::Bool(b),
{
    Json::Bool(b)
}

impl NodeRuntime {
    /// A node that has just started with the given settings.
    pub fn new(node_id: u64, node_type: NodeType, dev_mode: bool) -> (r: NodeRuntime)
        ensures
            r.node_id == node_id,
            r.node_type == node_type,
            r.dev_mode == dev_mode,
    {
        NodeRuntime { node_id, node_type, dev_mode }
    }

    /// Answers one message from the orchestrator.
    pub fn handle_message(&mut self, m: &RpcMessage) -> (reply: RpcReply)
        ensures
            final(self).node_id == old(self).node_id,
            final(self).node_type == old(self).node_type,
            ({
                let step = runtime_step(old(self).node_id, old(self).node_type, old(self).dev_mode, m@);
                &&& final(self).dev_mode == step.dev
                &&& opt_response(reply.response) == step.response
                &&& opt_log(reply.log) == step.log
            }),
            m@.method == Some("set_dev"@) ==> (m@.params is Some ==> (get_field(
                m@.params->0,
                "state"@,
            ) matches Some(JsonV::Bool(b)) ==> {
                &&& final(self).dev_mode == b
                &&& reply.response is Some
                &&& reply.response->0@.request_id == m@.request_id
                &&& reply.response->0@.result is Some
                &&& get_field(reply.response->0@.result->0, "dev"@) == Some(JsonV::Bool(b))
            })),
    {
        proof {
            if m@.method == Some("set_dev"@) && m@.params is Some {
                let p = m@.params->0;
                if let Some(JsonV::Bool(b)) = get_field(p, "state"@) {
                    lemma_set_dev_answers_requested_state(
                        old(self).node_id,
                        old(self).node_type,
                        old(self).dev_mode,
                        m@,
                        p,
                        b,
                    );
                }
            }
        }
        let method = match &m.method {
            None => {
                return RpcReply { response: None, log: None };
            },
            Some(method) => method.as_str(),
        };
        let request_id = m.request_id;
        if str_eq(method, "set_dev") {
            let state = match &m.params {
                Some(p) => match p.get("state") {
                    Some(v) => v.as_bool(),
                    None => None,
                },
                None => None,
            };
            proof {
                if let Some(p) = &m.params {
                    if let Some(v) = get_field(p@, "state"@) {
                        assert(v is Bool ==> set_dev_state(m@.params) == Some(v->Bool_0));
                    }
                }
            }
            match state {
                Some(b) => {
                    self.dev_mode = b;
                    let mut es: Vec<(String, Json)> = Vec::new();
                    es.push((String::from_str("ok"), jbool(true)));
                    es.push((String::from_str("dev"), jbool(b)));
                    let result = Json::object(es);
                    assert(entries_view(es@) =~= seq![
                        ("ok"@, JsonV::Bool(true)),
                        ("dev"@, JsonV::Bool(b)),
                    ]);
                    let mut text = String::from_str("dev mode switched to ");
                    append_bool(&mut text, b);
                    let log = LogLine {
                        level: String::from_str("INFO"),
                        source: String::from_str("rpc"),
                        message: text,
                    };
                    RpcReply { response: Some(RpcMessage::success(request_id, result)), log: Some(log) }
                },
                None => RpcReply {
                    response: Some(
                        RpcMessage::failure(request_id, String::from_str("Missing params.state bool")),
                    ),
                    log: None,
                },
            }
        } else if str_eq(method, "info") {
            let mut es: Vec<(String, Json)> = Vec::new();
            es.push((String::from_str("node_id"), Json::Number(u64_to_decimal(self.node_id))));
            es.push((String::from_str("node_type"), Json::Str(self.node_type.title())));
            es.push((String::from_str("dev"), jbool(self.dev_mode)));
            es.push((String::from_str("status"), Json::string("running")));
            let result = Json::object(es);
            assert(entries_view(es@) =~= seq![
                ("node_id"@, JsonV::Number(decimal(self.node_id as nat))),
                ("node_type"@, JsonV::Str(node_type_title(self.node_type))),
                ("dev"@, JsonV::Bool(self.dev_mode)),
                ("status"@, JsonV::Str("running"@)),
            ]);
            RpcReply { response: Some(RpcMessage::success(request_id, result)), log: None }
        } else if str_eq(method, "ping") {
            let mut es: Vec<(String, Json)> = Vec::new();
            es.push((String::from_str("pong"), jbool(true)));
            let result = Json::object(es);
            assert(entries_view(es@) =~= seq![("pong"@, JsonV::Bool(true))]);
            RpcReply { response: Some(RpcMessage::success(request_id, result)), log: None }
        } else {
            let mut err = String::from_str("Unsupported method: ");
            err.append(method);
            RpcReply { response: Some(RpcMessage::failure(request_id, err)), log: None }
        }
    }

    /// The log line a node sends once it has connected:
    /// `node <id> (<Type>) connected; dev=<dev>`, level `INFO`, source `node-runtime`.
    pub fn startup_log(&self) -> (l: LogLine)
        ensures
            l@ == (LogLineView {
                level: "INFO"@,
                source: "node-runtime"@,
                message: "node "@ + decimal(self.node_id as nat) + " ("@ + node_type_title(
                    self.node_type,
                ) + ") connected; dev="@ + bool_text(self.dev_mode),
            }),
    {
        let mut text = String::from_str("node ");
        text.append(u64_to_decimal(self.node_id).as_str());
        text.append(" (");
        text.append(self.node_type.title().as_str());
        text.append(") connected; dev=");
        append_bool(&mut text, self.dev_mode);
        LogLine {
            level: String::from_str("INFO"),
            source: String::from_str("node-runtime"),
            message: text,
        }
    }
}

/// The log line a node sends about a line on its RPC stream that is not a valid
/// message: `Invalid RPC payload: <error>`, level `WARN`, source `rpc`.
pub fn invalid_payload_log(error: &str) -> (l: LogLine)
    ensures
        l@ == (LogLineView {
            level: "WARN"@,
            source: "rpc"@,
            message: "Invalid RPC payload: "@ + error@,
        }),
{
    let mut text = String::from_str("Invalid RPC payload: ");
    text.append(error);
    LogLine { level: String::from_str("WARN"), source: String::from_str("rpc"), message: text }
}

/// After a `set_dev` request that sets the flag to `b`, the next `info` request reports
/// `dev` as `b`, whatever the flag was before.
pub proof fn lemma_info_reports_last_set_dev(
    id: u64,
    t: NodeType,
    dev: bool,
    set: RpcMessageView,
    info: RpcMessageView,
    b: bool,
)
    requires
        set.method == Some("set_dev"@),
        set_dev_state(set.params) == Some(b),
        info.method == Some("info"@),
    ensures
        ({
            let after_set = runtime_step(id, t, dev, set);
            let after_info = runtime_step(id, t, after_set.dev, info);
            &&& after_set.dev == b
            &&& after_info.dev == b
            &&& after_info.response is Some
            &&& after_info.response->0.result is Some
            &&& get_field(after_info.response->0.result->0, "dev"@) == Some(JsonV::Bool(b))
        }),
{
    reveal_strlit("set_dev");
    reveal_strlit("info");
    reveal_strlit("node_id");
    reveal_strlit("node_type");
    reveal_strlit("dev");
    assert("info"@ != "set_dev"@);
    let es = seq![
        ("node_id"@, JsonV::Number(decimal(id as nat))),
        ("node_type"@, JsonV::Str(node_type_title(t))),
        ("dev"@, JsonV::Bool(b)),
        ("status"@, JsonV::Str("running"@)),
    ];
    assert(es[0].0.len() != "dev"@.len());
    assert(es[1].0.len() != "dev"@.len());
    assert(es.drop_first().drop_first()[0] == ("dev"@, JsonV::Bool(b)));
    assert(entries_get(es.drop_first().drop_first(), "dev"@) == Some(JsonV::Bool(b)));
    assert(entries_get(es.drop_first(), "dev"@) == Some(JsonV::Bool(b)));
}

/// The `set_dev` request the orchestrator builds for `state` (its parameters are
/// `{"state": <state>}`) switches the node's flag to `state`, and the node answers
/// `{"ok": true, "dev": <state>}` under the request's id.
pub proof fn lemma_set_dev_request_switches_node(
    id: u64,
    t: NodeType,
    dev: bool,
    request_id: u64,
    state: bool,
)
    ensures
        ({
            let request = RpcMessageView {
                request_id: Some(request_id),
                method: Some("set_dev"@),
                params: Some(JsonV::Object(seq![("state"@, JsonV::Bool(state))])),
                result: None,
                error: None,
            };
            let step = runtime_step(id, t, dev, request);
            &&& step.dev == state
            &&& step.response == Some(success_view(Some(request_id), set_dev_result(state)))
        }),
{
    let es = seq![("state"@, JsonV::Bool(state))];
    assert(entries_get(es, "state"@) == Some(JsonV::Bool(state)));
}

/// Every request the node answers is answered under the request's own id and without a
/// method, so the orchestrator hands the answer to the request while it is still
/// waiting.
pub proof fn lemma_answers_reach_waiting_requests(
    id: u64,
    t: NodeType,
    dev: bool,
    m: RpcMessageView,
    pending: Set<u64>,
)
    requires
        m.method is Some,
        m.request_id is Some,
        pending.contains(m.request_id->0),
    ensures
        runtime_step(id, t, dev, m).response is Some,
        answers_pending(runtime_step(id, t, dev, m).response->0, pending),
{
}

/// A `set_dev` request whose parameters hold the boolean `state` = `b` switches the
/// node's flag to `b`, and is answered, under the request's own id and without an error,
/// with the object `{"ok": true, "dev": b}`: its `dev` field is `b`, for both values.
pub proof fn lemma_set_dev_answers_requested_state(
    id: u64,
    t: NodeType,
    dev: bool,
    m: RpcMessageView,
    params: JsonV,
    b: bool,
)
    requires
        m.method == Some("set_dev"@),
        m.params == Some(params),
        get_field(params, "state"@) == Some(JsonV::Bool(b)),
    ensures
        runtime_step(id, t, dev, m).dev == b,
        runtime_step(id, t, dev, m).response is Some,
        runtime_step(id, t, dev, m).response->0.request_id == m.request_id,
        runtime_step(id, t, dev, m).response->0.method is None,
        runtime_step(id, t, dev, m).response->0.error is None,
        runtime_step(id, t, dev, m).response->0.result == Some(
            JsonV::Object(seq![("ok"@, JsonV::Bool(true)), ("dev"@, JsonV::Bool(b))]),
        ),
        get_field(runtime_step(id, t, dev, m).response->0.result->0, "dev"@) == Some(
            JsonV::Bool(b),
        ),
        get_field(runtime_step(id, t, dev, m).response->0.result->0, "ok"@) == Some(
            JsonV::Bool(true),
        ),
{
    reveal_strlit("ok");
    reveal_strlit("dev");
    let es = seq![("ok"@, JsonV::Bool(true)), ("dev"@, JsonV::Bool(b))];
    assert(es[0].0.len() != "dev"@.len());
    assert(es[0].0 != "dev"@);
    assert(es.drop_first()[0] == ("dev"@, JsonV::Bool(b)));
    assert(entries_get(es.drop_first(), "dev"@) == Some(JsonV::Bool(b)));
    assert(entries_get(es, "dev"@) == Some(JsonV::Bool(b)));
    assert(entries_get(es, "ok"@) == Some(JsonV::Bool(true)));
}

} // verus!
