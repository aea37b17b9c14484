//! The configuration of the stand-alone port-mapping client.

use crate::tunnel::{launch_plan, LaunchPlan};
use vstd::prelude::*;

verus! {

/// Everything the client is started with.
#[derive(Debug, Clone)]
pub struct ClientConfig {
    pub port_mapping: PortMappingConfig,
}

/// What the client's tunnel engine is started with: the file that holds its
/// configuration, and its role.
#[derive(Debug, Clone)]
pub struct PortMappingConfig {
    pub config_path: String,
    /// The engine runs as server if set, as client if not.
    pub server: bool,
}

impl PortMappingConfig {
    /// The role of the client's engine where none is declared: client.
    pub fn default_is_server() -> (r: bool)
        ensures
            !r,
    {
        false
    }

    /// The start of the worker that this configuration asks for.
    pub fn launch_plan(&self) -> (r: LaunchPlan)
        ensures
            r.thread_name@ == "rathole-runner"@,
            r.config_path@ == self.config_path@,
            r.server == self.server,
            r.client == !self.server,
            r.shutdown_capacity == 4,
    {
        launch_plan(self.config_path.as_str(), self.server)
    }
}

} // verus!
