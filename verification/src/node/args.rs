//! The command line a node process is started with, and how a node reads it back.
use crate::node::{
    invalid_node_type_message, lemma_node_type_name_round_trip, node_type_from_name,
    node_type_name, node_type_title, parse_node_type, Endpoint, NodeType,
};
use crate::text::{
    append_decimal, decimal, lemma_parse_decimal, parse_u64, parse_u64_spec, str_eq,
};
use vstd::prelude::*;

verus! {

/// What a node process learns from its command line.
#[derive(Clone, Copy, Debug, PartialEq, Eq, Structural)]
pub struct NodeRuntimeArgs {
    pub orchestrator_addr: Endpoint,
    pub node_id: u64,
    pub node_type: NodeType,
    pub dev: bool,
}

/// The options seen so far while reading a node's command line.
#[derive(Clone, Copy, Debug, PartialEq, Eq, Structural)]
pub struct ScanState {
    pub cli: Option<Endpoint>,
    pub node_id: Option<u64>,
    pub node_type: Option<NodeType>,
    pub dev: bool,
}

/// Nothing seen yet.
pub open spec fn scan_start() -> ScanState {
    ScanState { cli: None, node_id: None, node_type: None, dev: false }
}

/// Reads the command line from position `idx` on. `addrs[i]` is the socket address
/// that `args[i]` denotes, if it denotes one. Options: `--cli <address>`,
/// `--node-id <u64>`, `--node-type <type>`, `--dev`; anything else is skipped.
pub open spec fn scan(
    args: Seq<Seq<char>>,
    addrs: Seq<Option<Endpoint>>,
    idx: int,
    st: ScanState,
) -> Result<ScanState, Seq<char>>
    decreases args.len() - idx,
{
    if idx < 0 || idx >= args.len() {
        Ok(st)
    } else {
        let a = args[idx];
        if a == "--cli"@ {
            if idx + 1 >= args.len() {
                Err("Missing value for --cli"@)
            } else {
                match addrs[idx + 1] {
                    Some(e) => scan(args, addrs, idx + 2, ScanState { cli: Some(e), ..st }),
                    None => Err("Invalid --cli address"@),
                }
            }
        } else if a == "--node-id"@ {
            if idx + 1 >= args.len() {
                Err("Missing value for --node-id"@)
            } else {
                match parse_u64_spec(args[idx + 1]) {
                    Some(n) => scan(args, addrs, idx + 2, ScanState { node_id: Some(n), ..st }),
                    None => Err("Invalid --node-id"@),
                }
            }
        } else if a == "--node-type"@ {
            if idx + 1 >= args.len() {
                Err("Missing value for --node-type"@)
            } else {
                match node_type_from_name(args[idx + 1]) {
                    Some(t) => scan(args, addrs, idx + 2, ScanState { node_type: Some(t), ..st }),
                    None => Err(invalid_node_type_message(args[idx + 1])),
                }
            }
        } else if a == "--dev"@ {
            scan(args, addrs, idx + 1, ScanState { dev: true, ..st })
        } else {
            scan(args, addrs, idx + 1, st)
        }
    }
}

/// What a process makes of its command line `args` (program name first): `None` when
/// it is not started as a node (no `--cli`), the node's settings when it is, or the
/// error that stops it.
pub open spec fn runtime_args_of(args: Seq<Seq<char>>, addrs: Seq<Option<Endpoint>>) -> Result<
    Option<NodeRuntimeArgs>,
    Seq<char>,
> {
    match scan(args, addrs, 1, scan_start()) {
        Err(e) => Err(e),
        Ok(st) => if st.cli is None {
            Ok(None)
        } else if st.node_id is None {
            Err("--node-id is required in node mode"@)
        } else if st.node_type is None {
            Err("--node-type is required in node mode"@)
        } else {
            Ok(
                Some(
                    NodeRuntimeArgs {
                        orchestrator_addr: st.cli->0,
                        node_id: st.node_id->0,
                        node_type: st.node_type->0,
                        dev: st.dev,
                    },
                ),
            )
        },
    }
}

/// The views of a list of texts.
pub open spec fn texts(v: Seq<String>) -> Seq<Seq<char>> {
    v.map_values(|s: String| s@)
}

/// Reads a node's settings from its command line `args` (program name first).
/// `addrs[i]` is the socket address that `args[i]` denotes, if any.
pub fn try_parse_runtime_args(args: &Vec<String>, addrs: &Vec<Option<Endpoint>>) -> (r: Result<
    Option<NodeRuntimeArgs>,
    String,
>)
    requires
        addrs.len() == args.len(),
    ensures
        match r {
            Ok(v) => runtime_args_of(texts(args@), addrs@) == Ok::<
                Option<NodeRuntimeArgs>,
                Seq<char>,
            >(v),
            Err(e) => runtime_args_of(texts(args@), addrs@) == Err::<
                Option<NodeRuntimeArgs>,
                Seq<char>,
            >(e@),
        },
{
    let ghost a = texts(args@);
    let mut st = ScanState { cli: None, node_id: None, node_type: None, dev: false };
    let mut idx: usize = 1;
    while idx < args.len()
        invariant
            a == texts(args@),
            addrs.len() == args.len(),
            1 <= idx <= args.len() + 1,
            scan(a, addrs@, 1, scan_start()) == scan(a, addrs@, idx as int, st),
        decreases args.len() - idx,
    {
        let arg = args[idx].as_str();
        assert(a[idx as int] == arg@);
        if str_eq(arg, "--cli") {
            if idx + 1 >= args.len() {
                return Err(String::from_str("Missing value for --cli"));
            }
            match addrs[idx + 1] {
                Some(e) => {
                    st = ScanState { cli: Some(e), ..st };
                },
                None => {
                    return Err(String::from_str("Invalid --cli address"));
                },
            }
            idx = idx + 2;
        } else if str_eq(arg, "--node-id") {
            if idx + 1 >= args.len() {
                return Err(String::from_str("Missing value for --node-id"));
            }
            assert(a[idx + 1] == args[idx + 1 as int]@);
            match parse_u64(args[idx + 1].as_str()) {
                Some(n) => {
                    st = ScanState { node_id: Some(n), ..st };
                },
                None => {
                    return Err(String::from_str("Invalid --node-id"));
                },
            }
            idx = idx + 2;
        } else if str_eq(arg, "--node-type") {
            if idx + 1 >= args.len() {
                return Err(String::from_str("Missing value for --node-type"));
            }
            assert(a[idx + 1] == args[idx + 1 as int]@);
            match parse_node_type(args[idx + 1].as_str()) {
                Ok(t) => {
                    st = ScanState { node_type: Some(t), ..st };
                },
                Err(e) => {
                    return Err(e);
                },
            }
            idx = idx + 2;
        } else if str_eq(arg, "--dev") {
            st = ScanState { dev: true, ..st };
            idx = idx + 1;
        } else {
            idx = idx + 1;
        }
    }
    match st.cli {
        None => Ok(None),
        Some(addr) => match st.node_id {
            None => Err(String::from_str("--node-id is required in node mode")),
            Some(node_id) => match st.node_type {
                None => Err(String::from_str("--node-type is required in node mode")),
                Some(node_type) => Ok(
                    Some(NodeRuntimeArgs { orchestrator_addr: addr, node_id, node_type, dev: st.dev }),
                ),
            },
        },
    }
}

/// The options a node process is started with, after the program name:
/// `--cli <addr> --node-id <id> --node-type <type>`, then `--dev` in development mode.
pub open spec fn node_process_args_of(addr: Seq<char>, node_id: u64, node_type: NodeType, dev: bool) -> Seq<Seq<char>> {
    let base = seq![
        "--cli"@,
        addr,
        "--node-id"@,
        decimal(node_id as nat),
        "--node-type"@,
        node_type_name(node_type),
    ];
    if dev {
        base.push("--dev"@)
    } else {
        base
    }
}

/// The options a node process is started with, after the program name. `addr` is the
/// text of the orchestrator's address.
pub fn node_process_args(addr: &str, node_id: u64, node_type: NodeType, dev: bool) -> (r: Vec<String>)
    ensures
        texts(r@) == node_process_args_of(addr@, node_id, node_type, dev),
{
    let mut r: Vec<String> = Vec::new();
    r.push(String::from_str("--cli"));
    r.push(String::from_str(addr));
    r.push(String::from_str("--node-id"));
    let mut id = String::new();
    append_decimal(&mut id, node_id);
    r.push(id);
    r.push(String::from_str("--node-type"));
    r.push(node_type.as_cli_value());
    if dev {
        r.push(String::from_str("--dev"));
    }
    assert(texts(r@) =~= node_process_args_of(addr@, node_id, node_type, dev));
    r
}

/// The prefix of the lines a node prints on standard output or standard error:
/// `[node-<id> <Type> stdout]` or `[node-<id> <Type> stderr]`.
pub fn stdio_prefix(node_id: u64, node_type: NodeType, stderr: bool) -> (r: String)
    ensures
        r@ == "[node-"@ + decimal(node_id as nat) + " "@ + node_type_title(node_type) + (if stderr {
            " stderr]"@
        } else {
            " stdout]"@
        }),
{
    let mut s = String::from_str("[node-");
    append_decimal(&mut s, node_id);
    s.append(" ");
    s.append(node_type.title().as_str());
    if stderr {
        s.append(" stderr]");
    } else {
        s.append(" stdout]");
    }
    s
}

/// The option names are distinct texts.
proof fn lemma_option_literals_differ()
    ensures
        "--cli"@ != "--node-id"@,
        "--cli"@ != "--node-type"@,
        "--cli"@ != "--dev"@,
        "--node-id"@ != "--node-type"@,
        "--node-id"@ != "--dev"@,
        "--node-type"@ != "--dev"@,
{
    reveal_strlit("--cli");
    reveal_strlit("--node-id");
    reveal_strlit("--node-type");
    reveal_strlit("--dev");
    assert("--cli"@.len() != "--node-id"@.len());
    assert("--cli"@.len() != "--node-type"@.len());
    assert("--cli"@[2] != "--dev"@[2]);
    assert("--node-id"@.len() != "--node-type"@.len());
    assert("--node-id"@.len() != "--dev"@.len());
    assert("--node-type"@.len() != "--dev"@.len());
}

/// A node started with the options that [`node_process_args`] builds reads back the
/// settings it was started with: its orchestrator address (the address that the
/// address text denotes), its id, its type and its development flag. The program name
/// and the texts of the other arguments do not matter.
pub proof fn lemma_spawned_node_reads_back_its_settings(
    program: Seq<char>,
    addr_text: Seq<char>,
    addr: Endpoint,
    node_id: u64,
    node_type: NodeType,
    dev: bool,
    addrs: Seq<Option<Endpoint>>,
)
    requires
        addrs.len() == node_process_args_of(addr_text, node_id, node_type, dev).len() + 1,
        addrs[2] == Some(addr),
    ensures
        runtime_args_of(
            seq![program] + node_process_args_of(addr_text, node_id, node_type, dev),
            addrs,
        ) == Ok::<Option<NodeRuntimeArgs>, Seq<char>>(
            Some(NodeRuntimeArgs { orchestrator_addr: addr, node_id, node_type, dev }),
        ),
{
    let a = seq![program] + node_process_args_of(addr_text, node_id, node_type, dev);
    lemma_option_literals_differ();
    lemma_parse_decimal(node_id);
    lemma_node_type_name_round_trip(node_type);
    assert(a[1] == "--cli"@);
    assert(a[2] == addr_text);
    assert(a[3] == "--node-id"@);
    assert(a[4] == decimal(node_id as nat));
    assert(a[5] == "--node-type"@);
    assert(a[6] == node_type_name(node_type));
    let s1 = ScanState { cli: Some(addr), ..scan_start() };
    let s2 = ScanState { node_id: Some(node_id), ..s1 };
    let s3 = ScanState { node_type: Some(node_type), ..s2 };
    if dev {
        assert(a.len() == 8);
        assert(a[7] == "--dev"@);
        let s4 = ScanState { dev: true, ..s3 };
        assert(scan(a, addrs, 8, s4) == Ok::<ScanState, Seq<char>>(s4));
        assert(scan(a, addrs, 7, s3) == scan(a, addrs, 8, s4));
        assert(scan(a, addrs, 5, s2) == scan(a, addrs, 7, s3));
        assert(scan(a, addrs, 3, s1) == scan(a, addrs, 5, s2));
        assert(scan(a, addrs, 1, scan_start()) == scan(a, addrs, 3, s1));
    } else {
        assert(a.len() == 7);
        assert(scan(a, addrs, 7, s3) == Ok::<ScanState, Seq<char>>(s3));
        assert(scan(a, addrs, 5, s2) == scan(a, addrs, 7, s3));
        assert(scan(a, addrs, 3, s1) == scan(a, addrs, 5, s2));
        assert(scan(a, addrs, 1, scan_start()) == scan(a, addrs, 3, s1));
    }
}

} // verus!
