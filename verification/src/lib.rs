//! Core of a single-room broadcast chat hub: the wire vocabulary, the two
//! admission limiters, the client registry, the message dispatcher and the
//! completion gateway's decisions, each stated over a mathematical view of the
//! hub and proved. Beside the hub stand the rules of its three companions:
//! the terminal client's command line, the load generator's bookkeeping and
//! the latency probe's arguments.

pub mod actions;
pub mod ai;
pub mod bench;
pub mod commands;
pub mod config;
pub mod fanout;
pub mod handlers;
pub mod laws;
pub mod lifecycle;
pub mod limiter;
pub mod monitor;
pub mod protocol;
pub mod queue;
pub mod registry;
pub mod render;
pub mod state;
pub mod text;
