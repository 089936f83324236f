//! Knowledge-graph management for coding context: command-line grammar,
//! configuration layering, and the decision logic around the graph store.

pub mod text;
pub mod cli;
pub mod dn_args;
pub mod args;
pub mod config;
pub mod json;
pub mod context;
pub mod models;
pub mod records;
pub mod rules;
pub mod graph;
pub mod hierarchy;
pub mod runner;
pub mod dunno_cli;
pub mod connect;
pub mod ingest;
pub mod api;
pub mod store;
