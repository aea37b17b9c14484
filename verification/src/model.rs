//! A port mapping as it is declared, and its reduction to a tunnel
//! configuration that holds the section of one role only.

use vstd::prelude::*;

verus! {

/// The role in which a tunnel runs.
#[derive(Debug, Clone, Copy, PartialEq, Eq, Structural)]
pub enum PortMappingMode {
    Server,
    Client,
}

impl PortMappingMode {
    /// Whether this is the server role.
    pub fn is_server(&self) -> (r: bool)
        ensures
            r == (*self == PortMappingMode::Server),
    {
        match self {
            PortMappingMode::Server => true,
            PortMappingMode::Client => false,
        }
    }
}

/// A tunnel configuration as the node carries it: at most one section for
/// each role. A section is held as text and never looked into; only the
/// tunnel engine reads it.
#[derive(Debug, Clone, PartialEq, Eq)]
pub struct TunnelConfig {
    pub server: Option<String>,
    pub client: Option<String>,
}

impl TunnelConfig {
    /// Whether the section of `mode` is present.
    pub open spec fn has_section(self, mode: PortMappingMode) -> bool {
        match mode {
            PortMappingMode::Server => self.server is Some,
            PortMappingMode::Client => self.client is Some,
        }
    }

    /// This configuration with nothing but the section of `mode`.
    pub open spec fn only(self, mode: PortMappingMode) -> TunnelConfig {
        match mode {
            PortMappingMode::Server => TunnelConfig { server: self.server, client: None },
            PortMappingMode::Client => TunnelConfig { server: None, client: self.client },
        }
    }

    /// Whether the section of `mode` is present and the other one is not.
    pub open spec fn is_sanitized_for(self, mode: PortMappingMode) -> bool {
        match mode {
            PortMappingMode::Server => self.server is Some && self.client is None,
            PortMappingMode::Client => self.client is Some && self.server is None,
        }
    }

    /// The text that stands for a section in a serialized configuration: the
    /// section itself, or `null` for one that is absent.
    pub open spec fn section_text(section: Option<String>) -> Seq<char> {
        match section {
            Some(text) => text@,
            None => "null"@,
        }
    }

    /// The serialized form of this configuration: a JSON object with the
    /// members `server` and `client`.
    pub open spec fn blob_text(self) -> Seq<char> {
        "{\"server\":"@ + Self::section_text(self.server) + ",\"client\":"@ + Self::section_text(
            self.client,
        ) + "}"@
    }

    /// Serializes this configuration as the tunnel engine reads it.
    pub fn to_blob(&self) -> (r: String)
        ensures
            r@ == self.blob_text(),
    {
        let mut blob = "{\"server\":".to_owned();
        match &self.server {
            Some(text) => blob.append(text.as_str()),
            None => blob.append("null"),
        }
        blob.append(",\"client\":");
        match &self.client {
            Some(text) => blob.append(text.as_str()),
            None => blob.append("null"),
        }
        blob.append("}");
        blob
    }
}

/// The error with which `serde_json` refuses a text.
#[verifier::external_type_specification]
#[verifier::external_body]
pub struct ExJsonError(serde_json::Error);

/// Whether the tunnel engine's configuration type reads a text: whether
/// `serde_json::from_str` at the type `rathole::Config` succeeds on it.
pub uninterp spec fn engine_accepts(blob: Seq<char>) -> bool;

/// Reads `blob` as a configuration of the tunnel engine, with
/// `serde_json::from_str` at the type `rathole::Config`, and hands back the
/// sections that the engine found, each serialized again with
/// `serde_json::to_string`.
///
/// Trusted: whether the text is read is a function of the text alone, named
/// [`engine_accepts`] (a configuration that was read is always serialized
/// again: its maps have text keys, and its types refuse nothing). Nothing is
/// claimed of what the sections hold or of the error.
#[verifier::external_body]
pub(crate) fn read_engine_config(blob: &str) -> (r: Result<TunnelConfig, serde_json::Error>)
    ensures
        r is Ok <==> engine_accepts(blob@),
{
    let config: rathole::Config = serde_json::from_str(blob)?;
    let server = config.server.map(|s| serde_json::to_string(&s)).transpose()?;
    let client = config.client.map(|c| serde_json::to_string(&c)).transpose()?;
    Ok(TunnelConfig { server, client })
}

/// Why a configuration was refused.
#[derive(Debug, Clone, PartialEq, Eq)]
pub enum ValidationError {
    /// An upstream target is no absolute URL.
    InvalidUrl,
    /// An upstream URL names no host.
    MissingHost,
    /// An upstream URL gives no port and its scheme has no known default.
    MissingPort,
    /// The role is server and the configuration has no server section.
    MissingServerSection,
    /// The role is client and the configuration has no client section.
    MissingClientSection,
    /// The tunnel engine refused the configuration, for the reason given.
    TunnelConfigInvalid(String),
}

impl ValidationError {
    /// The text of this error, as a sequence of characters.
    pub open spec fn message_text(self) -> Seq<char> {
        match self {
            ValidationError::InvalidUrl => "invalid upstream url"@,
            ValidationError::MissingHost => "missing host in upstream url"@,
            ValidationError::MissingPort => "missing port for upstream"@,
            ValidationError::MissingServerSection =>
                "missing server configuration for port mapping"@,
            ValidationError::MissingClientSection =>
                "missing client configuration for port mapping"@,
            ValidationError::TunnelConfigInvalid(reason) => reason@,
        }
    }

    /// The text of this error.
    pub fn message(&self) -> (r: String)
        ensures
            r@ == self.message_text(),
    {
        match self {
            ValidationError::InvalidUrl => "invalid upstream url".to_owned(),
            ValidationError::MissingHost => "missing host in upstream url".to_owned(),
            ValidationError::MissingPort => "missing port for upstream".to_owned(),
            ValidationError::MissingServerSection =>
                "missing server configuration for port mapping".to_owned(),
            ValidationError::MissingClientSection =>
                "missing client configuration for port mapping".to_owned(),
            ValidationError::TunnelConfigInvalid(reason) => reason.clone(),
        }
    }
}

/// What the tunnel engine said of a configuration that was put before it.
#[derive(Debug, Clone, PartialEq, Eq)]
pub enum EngineVerdict {
    Accepted,
    /// Refused, with the engine's reason.
    Rejected(String),
}

/// A port mapping as it is declared: a role, and a tunnel configuration that
/// must hold the section of that role.
#[derive(Debug, Clone, PartialEq, Eq)]
pub struct PortMappingSpec {
    pub mode: PortMappingMode,
    pub config: TunnelConfig,
}

impl PortMappingSpec {
    /// The error that stands for a missing section of `mode`.
    pub open spec fn missing_section(mode: PortMappingMode) -> ValidationError {
        match mode {
            PortMappingMode::Server => ValidationError::MissingServerSection,
            PortMappingMode::Client => ValidationError::MissingClientSection,
        }
    }

    /// The result of [`PortMappingSpec::sanitize`].
    pub open spec fn sanitized(self) -> Result<(TunnelConfig, PortMappingMode), ValidationError> {
        if self.config.has_section(self.mode) {
            Ok((self.config.only(self.mode), self.mode))
        } else {
            Err(Self::missing_section(self.mode))
        }
    }

    /// Reduces the configuration to the section of the declared role.
    ///
    /// Fails when that section is missing. Otherwise the other role's section
    /// is dropped, whatever it held, and the section of the role is kept as it
    /// is.
    pub fn sanitize(self) -> (r: Result<(TunnelConfig, PortMappingMode), ValidationError>)
        ensures
            r == self.sanitized(),
            r matches Ok((config, mode)) ==> mode == self.mode && config.is_sanitized_for(mode),
            r is Ok <==> self.config.has_section(self.mode),
            r == Err::<(TunnelConfig, PortMappingMode), ValidationError>(
                ValidationError::MissingServerSection,
            ) <==> self.mode == PortMappingMode::Server && self.config.server is None,
            r == Err::<(TunnelConfig, PortMappingMode), ValidationError>(
                ValidationError::MissingClientSection,
            ) <==> self.mode == PortMappingMode::Client && self.config.client is None,
    {
        let PortMappingSpec { mode, config } = self;
        match mode {
            PortMappingMode::Server => {
                if config.server.is_none() {
                    return Err(ValidationError::MissingServerSection);
                }
                Ok((TunnelConfig { server: config.server, client: None }, PortMappingMode::Server))
            },
            PortMappingMode::Client => {
                if config.client.is_none() {
                    return Err(ValidationError::MissingClientSection);
                }
                Ok((TunnelConfig { server: None, client: config.client }, PortMappingMode::Client))
            },
        }
    }
}

impl PortMappingSpec {
    /// Turns the mapping into what the tunnel engine is run with: the
    /// configuration reduced to the section of the declared role, and the
    /// role.
    ///
    /// A mapping without the section of its role fails as
    /// [`PortMappingSpec::sanitize`] says, and the engine is not asked. Every
    /// other one is reduced and put before the engine in its serialized form:
    /// if the engine reads it, the result is the reduced configuration, else
    /// `TunnelConfigInvalid` with the engine's reason. What the other role's
    /// section held has no part in either.
    pub fn into_rathole(self) -> (r: Result<(TunnelConfig, PortMappingMode), ValidationError>)
        ensures
            !self.config.has_section(self.mode) ==> r == self.sanitized(),
            self.config.has_section(self.mode) && engine_accepts(
                self.config.only(self.mode).blob_text(),
            ) ==> r == self.sanitized(),
            self.config.has_section(self.mode) && !engine_accepts(
                self.config.only(self.mode).blob_text(),
            ) ==> (r matches Err(ValidationError::TunnelConfigInvalid(_))),
            r is Ok <==> self.config.has_section(self.mode) && engine_accepts(
                self.config.only(self.mode).blob_text(),
            ),
            r matches Ok((config, mode)) ==> mode == self.mode && config == self.config.only(mode)
                && config.is_sanitized_for(mode),
            r == Err::<(TunnelConfig, PortMappingMode), ValidationError>(
                ValidationError::MissingServerSection,
            ) <==> self.mode == PortMappingMode::Server && self.config.server is None,
            r == Err::<(TunnelConfig, PortMappingMode), ValidationError>(
                ValidationError::MissingClientSection,
            ) <==> self.mode == PortMappingMode::Client && self.config.client is None,
    {
        let (config, mode) = match self.sanitize() {
            Ok(reduced) => reduced,
            Err(e) => {
                return Err(e);
            },
        };
        let verdict = engine_verdict(&config);
        apply_verdict(config, mode, verdict)
    }
}

/// Puts a configuration before the tunnel engine: serialized, and read by
/// the engine's own configuration type.
///
/// The configuration is accepted if and only if the engine reads its
/// serialized form; the reason of a refusal is the engine's.
fn engine_verdict(config: &TunnelConfig) -> (r: EngineVerdict)
    ensures
        r is Accepted <==> engine_accepts(config.blob_text()),
{
    let blob = config.to_blob();
    match read_engine_config(blob.as_str()) {
        Ok(_) => EngineVerdict::Accepted,
        Err(e) => EngineVerdict::Rejected(e.to_string()),
    }
}

/// The result of [`apply_verdict`].
pub open spec fn after_verdict(
    config: TunnelConfig,
    mode: PortMappingMode,
    verdict: EngineVerdict,
) -> Result<(TunnelConfig, PortMappingMode), ValidationError> {
    match verdict {
        EngineVerdict::Accepted => Ok((config, mode)),
        EngineVerdict::Rejected(reason) => Err(ValidationError::TunnelConfigInvalid(reason)),
    }
}

/// Settles the fate of a configuration that [`PortMappingSpec::sanitize`]
/// produced, by the tunnel engine's answer on it.
///
/// An accepted configuration is handed on unchanged with its role; a refusal
/// becomes `TunnelConfigInvalid` with the engine's reason.
pub fn apply_verdict(
    config: TunnelConfig,
    mode: PortMappingMode,
    verdict: EngineVerdict,
) -> (r: Result<(TunnelConfig, PortMappingMode), ValidationError>)
    ensures
        r == after_verdict(config, mode, verdict),
{
    match verdict {
        EngineVerdict::Accepted => Ok((config, mode)),
        EngineVerdict::Rejected(reason) => Err(ValidationError::TunnelConfigInvalid(reason)),
    }
}

} // verus!
