//! Germina: the verified core of the Germina orchestrator CLI.
//!
//! The orchestrator starts node processes, keeps a book of them, talks to them over an
//! RPC line protocol, checks the runtime's folder hierarchy and writes editor
//! configurations for the runtime's components. This crate holds the decisions of all
//! of that; the program around it does the input and output.
use vstd::prelude::*;

pub mod cli;
pub mod config;
pub mod json;
pub mod node;
pub mod orchestrator;
pub mod text;
pub mod ui;
pub mod util;
pub mod web;

verus! {

} // verus!
