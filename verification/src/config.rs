//! The node's configuration, as plain values. Reading it from a file is the
//! caller's part.

use crate::model::PortMappingSpec;
use crate::tunnel::{launch_plan, LaunchPlan};
use vstd::prelude::*;

verus! {

/// Everything a node is started with.
#[derive(Debug, Clone)]
pub struct NodeConfig {
    pub reverse_proxy: ReverseProxyConfig,
    /// The port mapping declared locally, if any.
    pub port_mapping: Option<PortMappingSpec>,
    /// The registry to ask for a port mapping, if any.
    pub manager: Option<ManagerLinkConfig>,
}

/// The reverse proxy's settings.
#[derive(Debug, Clone)]
pub struct ReverseProxyConfig {
    /// The address to listen on.
    pub bind: String,
    pub tls: Option<TlsConfig>,
    /// The declared routes in their order: a hostname, and the URL of its
    /// upstream.
    pub routes: Vec<(String, String)>,
    /// The URL of the upstream for hostnames that have no route.
    pub default_upstream: Option<String>,
}

/// Where the certificate and its key lie.
#[derive(Debug, Clone)]
pub struct TlsConfig {
    pub cert: String,
    pub key: String,
}

/// What a tunnel engine is started with: the file that holds its
/// configuration, and its role.
#[derive(Debug, Clone)]
pub struct PortMappingConfig {
    pub config_path: String,
    /// The engine runs as server if set, as client if not.
    pub server: bool,
}

/// A registry, and the name under which this node is known to it.
#[derive(Debug, Clone)]
pub struct ManagerLinkConfig {
    pub endpoint: String,
    pub node_name: String,
}

impl PortMappingConfig {
    /// The role of a node's engine where none is declared: server.
    pub fn default_is_server() -> (r: bool)
        ensures
            r,
    {
        true
    }

    /// The start of the worker that this configuration asks for.
    pub fn launch_plan(&self) -> (r: LaunchPlan)
        ensures
            r.thread_name@ == "rathole-runner"@,
            r.config_path@ == self.config_path@,
            r.server == self.server,
            r.client == !self.server,
            r.shutdown_capacity == 4,
    {
        launch_plan(self.config_path.as_str(), self.server)
    }
}

/// The address a node listens on where none is declared.
pub fn default_bind() -> (r: String)
    ensures
        r@ == "0.0.0.0:8443"@,
{
    "0.0.0.0:8443".to_owned()
}

impl Default for ReverseProxyConfig {
    fn default() -> (r: Self)
        ensures
            r.bind@ == "0.0.0.0:8443"@,
            r.tls is None,
            r.routes@.len() == 0,
            r.default_upstream is None,
    {
        ReverseProxyConfig {
            bind: default_bind(),
            tls: None,
            routes: Vec::new(),
            default_upstream: None,
        }
    }
}

/// How the proxy listens, as contracts speak of it.
pub enum ListenerModel {
    Tcp { bind: Seq<char> },
    Tls { bind: Seq<char>, cert: Seq<char>, key: Seq<char> },
}

/// How the proxy listens: in the clear, or with a certificate and its key.
#[derive(Debug, Clone, PartialEq, Eq)]
pub enum Listener {
    Tcp { bind: String },
    Tls { bind: String, cert: String, key: String },
}

impl View for Listener {
    type V = ListenerModel;

    open spec fn view(&self) -> ListenerModel {
        match *self {
            Listener::Tcp { bind } => ListenerModel::Tcp { bind: bind@ },
            Listener::Tls { bind, cert, key } => ListenerModel::Tls {
                bind: bind@,
                cert: cert@,
                key: key@,
            },
        }
    }
}

impl ReverseProxyConfig {
    /// The listener that this configuration asks for.
    pub open spec fn listener_model(&self) -> ListenerModel {
        match self.tls {
            Some(tls) => ListenerModel::Tls { bind: self.bind@, cert: tls.cert@, key: tls.key@ },
            None => ListenerModel::Tcp { bind: self.bind@ },
        }
    }

    /// The listener that this configuration asks for: with TLS where
    /// certificate and key are configured, in the clear where they are not,
    /// on the configured address either way.
    pub fn listener(&self) -> (r: Listener)
        ensures
            r@ == self.listener_model(),
    {
        match &self.tls {
            Some(tls) => Listener::Tls {
                bind: self.bind.clone(),
                cert: tls.cert.clone(),
                key: tls.key.clone(),
            },
            None => Listener::Tcp { bind: self.bind.clone() },
        }
    }
}

} // verus!
