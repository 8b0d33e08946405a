//! Supervision of a locally run chain node and incremental indexing of its
//! chain: the decisions, as verified state machines and functions on plain
//! values. The caller performs the outside work (processes, RPC, sleeping,
//! event delivery) and reports what happened.

pub mod assembler;
pub mod chain;
pub mod config;
pub mod error;
pub mod facade;
pub mod folders;
pub mod indexer;
pub mod install;
pub mod lifecycle;
pub mod supervisor;
pub mod text;
pub mod trace;
