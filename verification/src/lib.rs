//! Orchestration core of an edge node: the routing table of its reverse
//! proxy, the per-request routing decision, the reduction of a declared port
//! mapping to the tunnel configuration of its role, the rules by which the
//! effective mapping is chosen, the life of the tunnel worker, and the order
//! in which a node comes up and goes down.

pub mod client;
pub mod config;
pub mod model;
pub mod orchestrator;
pub mod proxy;
pub mod registry;
pub mod resolver;
pub mod tunnel;
pub mod upstream;
