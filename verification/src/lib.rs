//! Host-side library for a sandbox cold-start and density benchmark harness.
//!
//! The crate holds the verified logic of the harness: network identity
//! allocation for microVM instances, HTTP request and response framing for
//! the load generator and the in-process sandbox server, the port-probe
//! budget, the sandbox lifecycle rules, and the benchmark bookkeeping.
//! Process spawning, sockets and files live outside the library.

pub mod bench;
pub mod cli;
pub mod client;
pub mod density;
pub mod echo;
pub mod firecracker;
pub mod host;
pub mod hyperlight;
pub mod jsonparse;
pub mod latency;
pub mod lifecycle;
pub mod numfmt;
pub mod pool;
pub mod prober;
pub mod process;
pub mod request;
pub mod respond;
pub mod server;
pub mod snapshot;
pub mod template;
pub mod uid;
pub mod unikraft;
