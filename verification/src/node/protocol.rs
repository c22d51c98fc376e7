//! The line protocol between the orchestrator and its nodes: stream greetings,
//! log records and RPC messages.
use crate::json::{Json, JsonV};
use crate::text::{decimal, push_char, trim, trim_chars, chars_of, string_of, str_eq, u64_to_decimal};
use vstd::prelude::*;

verus! {

/// The view of an optional text.
pub open spec fn opt_text(o: Option<String>) -> Option<Seq<char>> {
    match o {
        Some(s) => Some(s@),
        None => None,
    }
}

/// The view of an optional JSON value.
pub open spec fn opt_json(o: Option<Json>) -> Option<JsonV> {
    match o {
        Some(j) => Some(j@),
        None => None,
    }
}

/// A request, a response or a notification on a node's RPC stream.
#[derive(Debug)]
pub struct RpcMessage {
    pub request_id: Option<u64>,
    pub method: Option<String>,
    pub params: Option<Json>,
    pub result: Option<Json>,
    pub error: Option<String>,
}

/// The mathematical form of an [`RpcMessage`].
pub struct RpcMessageView {
    pub request_id: Option<u64>,
    pub method: Option<Seq<char>>,
    pub params: Option<JsonV>,
    pub result: Option<JsonV>,
    pub error: Option<Seq<char>>,
}

impl View for RpcMessage {
    type V = RpcMessageView;

    open spec fn view(&self) -> RpcMessageView {
        RpcMessageView {
            request_id: self.request_id,
            method: opt_text(self.method),
            params: opt_json(self.params),
            result: opt_json(self.result),
            error: opt_text(self.error),
        }
    }
}

impl RpcMessage {
    /// A request for `method` with `params`, numbered `request_id`.
    pub fn request(request_id: u64, method: &str, params: Json) -> (r: RpcMessage)
        ensures
            r@ == (RpcMessageView {
                request_id: Some(request_id),
                method: Some(method@),
                params: Some(params@),
                result: None,
                error: None,
            }),
    {
        RpcMessage {
            request_id: Some(request_id),
            method: Some(String::from_str(method)),
            params: Some(params),
            result: None,
            error: None,
        }
    }

    /// A successful response to request `request_id`.
    pub fn success(request_id: Option<u64>, result: Json) -> (r: RpcMessage)
        ensures
            r@ == (RpcMessageView {
                request_id,
                method: None,
                params: None,
                result: Some(result@),
                error: None,
            }),
    {
        RpcMessage { request_id, method: None, params: None, result: Some(result), error: None }
    }

    /// A failed response to request `request_id`.
    pub fn failure(request_id: Option<u64>, error: String) -> (r: RpcMessage)
        ensures
            r@ == (RpcMessageView {
                request_id,
                method: None,
                params: None,
                result: None,
                error: Some(error@),
            }),
    {
        RpcMessage { request_id, method: None, params: None, result: None, error: Some(error) }
    }
}

/// One log record sent by a node.
#[derive(Clone, Debug, PartialEq)]
pub struct LogRecord {
    pub timestamp: String,
    pub level: String,
    pub source: String,
    pub message: String,
}

/// The first line of every stream a node opens: who it is and which channel this is.
#[derive(Clone, Debug, PartialEq)]
pub struct StreamHello {
    pub node_id: u64,
    pub channel: String,
}

/// What a stream carries, by the channel its greeting names.
#[derive(Clone, Copy, Debug, PartialEq, Eq, Structural)]
pub enum StreamChannel {
    Log,
    Rpc,
    Unsupported,
}

/// The channel that a greeting's channel name selects.
pub open spec fn channel_of(name: Seq<char>) -> StreamChannel {
    if name == "log"@ {
        StreamChannel::Log
    } else if name == "rpc"@ {
        StreamChannel::Rpc
    } else {
        StreamChannel::Unsupported
    }
}

/// Selects how a stream is handled from the channel named in its greeting.
pub fn stream_channel(name: &str) -> (r: StreamChannel)
    ensures
        r == channel_of(name@),
{
    if str_eq(name, "log") {
        StreamChannel::Log
    } else if str_eq(name, "rpc") {
        StreamChannel::Rpc
    } else {
        StreamChannel::Unsupported
    }
}

/// The greeting with which node `node_id` opens its RPC stream (`rpc`) or its log
/// stream (otherwise).
pub fn stream_hello(node_id: u64, rpc: bool) -> (r: StreamHello)
    ensures
        r.node_id == node_id,
        r.channel@ == if rpc {
            "rpc"@
        } else {
            "log"@
        },
{
    StreamHello {
        node_id,
        channel: if rpc {
            String::from_str("rpc")
        } else {
            String::from_str("log")
        },
    }
}

/// The orchestrator reads the channel a node's greeting names as the channel the node
/// opened.
pub proof fn lemma_greeting_selects_its_channel(rpc: bool)
    ensures
        channel_of(if rpc {
            "rpc"@
        } else {
            "log"@
        }) == if rpc {
            StreamChannel::Rpc
        } else {
            StreamChannel::Log
        },
{
    reveal_strlit("rpc");
    reveal_strlit("log");
    assert("rpc"@[0] != "log"@[0]);
}

/// The error for a stream whose greeting names an unknown channel.
pub fn unsupported_channel_message(name: &str) -> (r: String)
    ensures
        r@ == "Unsupported stream channel: "@ + name@,
{
    let mut s = String::from_str("Unsupported stream channel: ");
    s.append(name);
    s
}

/// Whole seconds elapsed since the Unix epoch by the system clock
/// (`SystemTime::elapsed` on `UNIX_EPOCH`, in whole seconds), or `None` when the clock
/// reads earlier than the epoch. The value depends on the clock, so nothing is stated
/// of it.
#[verifier::external_body]
fn seconds_since_epoch() -> (r: Option<u64>) {
    match std::time::UNIX_EPOCH.elapsed() {
        Ok(elapsed) => Some(elapsed.as_secs()),
        Err(_) => None,
    }
}

/// The seconds a clock reading stands for: the reading itself, or `0` when the clock
/// reads earlier than the Unix epoch.
pub open spec fn reading_seconds(secs: Option<u64>) -> u64 {
    match secs {
        Some(s) => s,
        None => 0,
    }
}

/// The time stamp text of a clock reading in whole seconds since the Unix epoch: its
/// decimal digits, or `0` when the clock reads earlier than the epoch (`None`).
pub fn timestamp_text(secs: Option<u64>) -> (r: String)
    ensures
        r@ == decimal(reading_seconds(secs) as nat),
{
    let s = match secs {
        Some(s) => s,
        None => 0,
    };
    u64_to_decimal(s)
}

/// The reason given when a node's RPC stream ends: `RPC stream closed`.
pub fn rpc_stream_closed_reason() -> (r: String)
    ensures
        r@ == "RPC stream closed"@,
{
    String::from_str("RPC stream closed")
}

/// The current time as decimal seconds since the Unix epoch; `0` when the clock reads
/// earlier than the epoch.
pub fn unix_ts() -> (r: String)
    ensures
        exists|secs: u64| r@ == decimal(secs as nat),
{
    timestamp_text(seconds_since_epoch())
}

/// The time stamp given to log lines that arrive without one.
pub fn chrono_like_timestamp() -> (r: String)
    ensures
        exists|secs: u64| r@ == decimal(secs as nat),
{
    unix_ts()
}

/// The record made of a log line that is not a JSON log record: level `INFO`,
/// source `plain`, the trimmed line as message.
pub fn plain_log_record(line: &str, timestamp: String) -> (r: LogRecord)
    ensures
        r.timestamp == timestamp,
        r.level@ == "INFO"@,
        r.source@ == "plain"@,
        r.message@ == trim(line@),
{
    let t = trim_chars(&chars_of(line));
    LogRecord {
        timestamp,
        level: String::from_str("INFO"),
        source: String::from_str("plain"),
        message: string_of(&t),
    }
}

/// How the orchestrator prints a log record received from node `node_id`:
/// `[node-<id> remote-log <timestamp> <level> <source>] <message>`.
pub open spec fn remote_log_line(node_id: u64, ts: Seq<char>, level: Seq<char>, source: Seq<char>, message: Seq<char>) -> Seq<char> {
    "[node-"@ + decimal(node_id as nat) + " remote-log "@ + ts + " "@ + level + " "@ + source + "] "@ + message
}

/// The console line for a log record received from node `node_id`.
pub fn format_remote_log(node_id: u64, record: &LogRecord) -> (r: String)
    ensures
        r@ == remote_log_line(node_id, record.timestamp@, record.level@, record.source@, record.message@),
{
    let mut s = String::from_str("[node-");
    s.append(u64_to_decimal(node_id).as_str());
    s.append(" remote-log ");
    s.append(record.timestamp.as_str());
    push_char(&mut s, ' ');
    s.append(record.level.as_str());
    push_char(&mut s, ' ');
    s.append(record.source.as_str());
    s.append("] ");
    s.append(record.message.as_str());
    proof {
        reveal_strlit(" ");
        assert(s@ =~= remote_log_line(node_id, record.timestamp@, record.level@, record.source@, record.message@));
    }
    s
}

} // verus!
