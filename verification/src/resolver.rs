//! Which port mapping a node runs with: the one declared locally, or the one
//! that the registry holds for the node.
//!
//! The call to the registry is the caller's part. This module says what is
//! asked, reads what came back, and decides between the two mappings. A
//! registry that was asked and did not answer well is fatal: the local mapping
//! is no fallback for it.

use crate::config::ManagerLinkConfig;
use crate::model::{
    engine_accepts, read_engine_config, PortMappingMode, PortMappingSpec, TunnelConfig,
};
use vstd::prelude::*;

verus! {

/// The request that is sent to the registry: the configuration of the node of
/// this name, asked of this endpoint.
#[derive(Debug, Clone, PartialEq, Eq)]
pub struct FetchRequest {
    pub endpoint: String,
    pub name: String,
}

/// The role that the registry declares for a port mapping.
#[derive(Debug, Clone, Copy, PartialEq, Eq, Structural)]
pub enum RemoteMode {
    /// The registry declares a mapping and leaves its role open.
    Unspecified,
    Server,
    Client,
    /// A value that stands for no role known to this node.
    Unrecognized,
}

/// A port mapping as the registry sends it: a role, and the serialized
/// tunnel configuration.
#[derive(Debug, Clone, PartialEq, Eq)]
pub struct RemotePortMapping {
    pub mode: RemoteMode,
    pub config_json: String,
}

/// The registry's answer for one node.
#[derive(Debug, Clone, PartialEq, Eq)]
pub struct RemoteNodeConfig {
    pub name: String,
    pub port_mapping: Option<RemotePortMapping>,
}

/// Why the registry's port mapping could not be had.
#[derive(Debug, Clone, PartialEq, Eq)]
pub enum FetchError {
    /// The registry could not be reached, refused the call or does not know
    /// the node; with the reason.
    Transport(String),
    /// The mapping's role is a value that this node does not know.
    UnknownMode,
    /// The mapping's role was left open.
    UnspecifiedMode,
    /// The serialized tunnel configuration could not be read; with the
    /// reason.
    MalformedConfig(String),
}

impl FetchError {
    /// The text of this error, as a sequence of characters.
    pub open spec fn message_text(self) -> Seq<char> {
        match self {
            FetchError::Transport(reason) => reason@,
            FetchError::UnknownMode => "unknown port mapping mode from manager"@,
            FetchError::UnspecifiedMode => "manager returned unspecified port mapping mode"@,
            FetchError::MalformedConfig(_) =>
                "failed to parse port mapping configuration from manager"@,
        }
    }

    /// The text of this error.
    pub fn message(&self) -> (r: String)
        ensures
            r@ == self.message_text(),
    {
        match self {
            FetchError::Transport(reason) => reason.clone(),
            FetchError::UnknownMode => "unknown port mapping mode from manager".to_owned(),
            FetchError::UnspecifiedMode =>
                "manager returned unspecified port mapping mode".to_owned(),
            FetchError::MalformedConfig(_) =>
                "failed to parse port mapping configuration from manager".to_owned(),
        }
    }
}

/// Where the mapping that a node runs with came from.
#[derive(Debug, Clone, Copy, PartialEq, Eq, Structural)]
pub enum MappingSource {
    /// No registry is configured: the local declaration stands.
    Local,
    /// The registry sent a mapping: it stands, whatever was declared locally.
    Manager,
    /// The registry answered without a mapping: the local declaration stands.
    LocalAfterEmptyAnswer,
}

/// The request for the node that `link` names, to the endpoint it names.
pub fn fetch_request(link: &ManagerLinkConfig) -> (r: FetchRequest)
    ensures
        r.endpoint@ == link.endpoint@,
        r.name@ == link.node_name@,
{
    FetchRequest { endpoint: link.endpoint.clone(), name: link.node_name.clone() }
}

/// The role that a declared role stands for, or the error it gives.
pub open spec fn role_of(mode: RemoteMode) -> Result<PortMappingMode, FetchError> {
    match mode {
        RemoteMode::Server => Ok(PortMappingMode::Server),
        RemoteMode::Client => Ok(PortMappingMode::Client),
        RemoteMode::Unspecified => Err(FetchError::UnspecifiedMode),
        RemoteMode::Unrecognized => Err(FetchError::UnknownMode),
    }
}

/// The mapping that a declared role and a tunnel configuration, read or
/// refused, stand for. The role is judged first.
pub open spec fn mapping_of(mode: RemoteMode, config: Result<TunnelConfig, String>) -> Result<
    PortMappingSpec,
    FetchError,
> {
    match role_of(mode) {
        Err(e) => Err(e),
        Ok(role) => match config {
            Ok(config) => Ok(PortMappingSpec { mode: role, config: config }),
            Err(reason) => Err(FetchError::MalformedConfig(reason)),
        },
    }
}

/// Turns the role that the registry declares into a role of this node.
pub fn remote_role(mode: RemoteMode) -> (r: Result<PortMappingMode, FetchError>)
    ensures
        r == role_of(mode),
{
    match mode {
        RemoteMode::Server => Ok(PortMappingMode::Server),
        RemoteMode::Client => Ok(PortMappingMode::Client),
        RemoteMode::Unspecified => Err(FetchError::UnspecifiedMode),
        RemoteMode::Unrecognized => Err(FetchError::UnknownMode),
    }
}

/// Builds the mapping from the role that the registry declares and its tunnel
/// configuration as it was read, or the reason why it could not be read.
///
/// An open role gives `UnspecifiedMode`, an unknown one `UnknownMode`,
/// whatever the configuration is; under a known role a configuration that
/// could not be read gives `MalformedConfig`.
pub fn port_mapping_from(mode: RemoteMode, config: Result<TunnelConfig, String>) -> (r: Result<
    PortMappingSpec,
    FetchError,
>)
    ensures
        r == mapping_of(mode, config),
{
    let role = match remote_role(mode) {
        Ok(role) => role,
        Err(e) => {
            return Err(e);
        },
    };
    match config {
        Ok(config) => Ok(PortMappingSpec { mode: role, config }),
        Err(reason) => Err(FetchError::MalformedConfig(reason)),
    }
}

/// Whether `r` is what a mapping of the declared role `mode` can be read as:
/// the error of the role if it has one, else a mapping of that role or
/// `MalformedConfig`.
pub open spec fn read_as(mode: RemoteMode, r: Result<PortMappingSpec, FetchError>) -> bool {
    match role_of(mode) {
        Err(e) => r == Err::<PortMappingSpec, FetchError>(e),
        Ok(role) => match r {
            Ok(spec) => spec.mode == role,
            Err(e) => e is MalformedConfig,
        },
    }
}

/// Reads a mapping as the registry sent it.
///
/// The role is judged first, as [`port_mapping_from`] says, and a mapping of
/// open or unknown role is refused unread. Under a known role the serialized
/// configuration is read by the tunnel engine's configuration type: the
/// result is a mapping of that role if the engine reads it, and
/// `MalformedConfig` if it does not.
pub fn decode_port_mapping(remote: &RemotePortMapping) -> (r: Result<PortMappingSpec, FetchError>)
    ensures
        read_as(remote.mode, r),
        r is Ok <==> role_of(remote.mode) is Ok && engine_accepts(remote.config_json@),
{
    if let Err(e) = remote_role(remote.mode) {
        return Err(e);
    }
    let config = match read_engine_config(remote.config_json.as_str()) {
        Ok(config) => Ok(config),
        Err(e) => Err(e.to_string()),
    };
    port_mapping_from(remote.mode, config)
}

/// Reads the registry's answer to a [`FetchRequest`]: the node's
/// configuration, or the reason why the call failed.
///
/// A failed call gives `Transport` with its reason. An answer without
/// mapping gives none; an answer with a mapping gives what
/// [`decode_port_mapping`] makes of it.
pub fn fetch_port_mapping_from_manager(reply: Result<RemoteNodeConfig, String>) -> (r: Result<
    Option<PortMappingSpec>,
    FetchError,
>)
    ensures
        match reply {
            Err(reason) => r == Err::<Option<PortMappingSpec>, FetchError>(
                FetchError::Transport(reason),
            ),
            Ok(node) => match node.port_mapping {
                None => r == Ok::<Option<PortMappingSpec>, FetchError>(None),
                Some(remote) => (match r {
                    Ok(Some(spec)) => read_as(remote.mode, Ok(spec)),
                    Ok(None) => false,
                    Err(e) => read_as(remote.mode, Err(e)),
                }) && (r is Ok <==> role_of(remote.mode) is Ok && engine_accepts(
                    remote.config_json@,
                )),
            },
        },
{
    match reply {
        Err(reason) => Err(FetchError::Transport(reason)),
        Ok(node) => match node.port_mapping {
            None => Ok(None),
            Some(remote) => match decode_port_mapping(&remote) {
                Ok(spec) => Ok(Some(spec)),
                Err(e) => Err(e),
            },
        },
    }
}

/// The mapping that a node runs with, and where it came from, or the error
/// that ends the resolution.
pub open spec fn resolved(
    local: Option<PortMappingSpec>,
    fetched: Option<Result<Option<PortMappingSpec>, FetchError>>,
) -> Result<(Option<PortMappingSpec>, MappingSource), FetchError> {
    match fetched {
        None => Ok((local, MappingSource::Local)),
        Some(Err(e)) => Err(e),
        Some(Ok(Some(remote))) => Ok((Some(remote), MappingSource::Manager)),
        Some(Ok(None)) => Ok((local, MappingSource::LocalAfterEmptyAnswer)),
    }
}

/// Decides which mapping a node runs with.
///
/// `fetched` is what [`fetch_port_mapping_from_manager`] gave, and nothing
/// where no registry is configured. Without registry the local mapping
/// stands. A mapping from the registry stands in place of the local one,
/// whether or not one was declared. An answer without mapping leaves the
/// local one standing. A failed fetch fails the resolution.
pub fn load_port_mapping(
    local: Option<PortMappingSpec>,
    fetched: Option<Result<Option<PortMappingSpec>, FetchError>>,
) -> (r: Result<(Option<PortMappingSpec>, MappingSource), FetchError>)
    ensures
        r == resolved(local, fetched),
{
    match fetched {
        None => Ok((local, MappingSource::Local)),
        Some(Err(e)) => Err(e),
        Some(Ok(Some(remote))) => Ok((Some(remote), MappingSource::Manager)),
        Some(Ok(None)) => Ok((local, MappingSource::LocalAfterEmptyAnswer)),
    }
}

/// A mapping that the registry sent overrides every local declaration.
pub proof fn lemma_remote_overrides_local(
    local: Option<PortMappingSpec>,
    other_local: Option<PortMappingSpec>,
    remote: PortMappingSpec,
)
    ensures
        resolved(local, Some(Ok(Some(remote)))) == Ok::<
            (Option<PortMappingSpec>, MappingSource),
            FetchError,
        >((Some(remote), MappingSource::Manager)),
        resolved(local, Some(Ok(Some(remote)))) == resolved(other_local, Some(Ok(Some(remote)))),
{
}

} // verus!
