//! The registry's side of the boundary with a node: the rule on node names,
//! the errors of its API, and the port mapping as it is sent to a node.

use crate::model::{PortMappingMode, PortMappingSpec};
use crate::resolver::{role_of, RemoteMode, RemoteNodeConfig, RemotePortMapping};
use vstd::prelude::*;

verus! {

/// A text without the white space at its two ends, as `str::trim` gives it.
pub uninterp spec fn trimmed_of(text: Seq<char>) -> Seq<char>;

/// Takes the white space off both ends of `text` with `str::trim`.
///
/// Trusted: the result is a function of the text alone, named
/// [`trimmed_of`].
#[verifier::external_body]
fn trim(text: &str) -> (r: &str)
    ensures
        r@ == trimmed_of(text@),
{
    text.trim()
}

/// An error of the registry's API: the HTTP status that answers the request,
/// and a text for the caller.
#[derive(Debug, Clone, PartialEq, Eq)]
pub struct AppError {
    status: u16,
    message: String,
}

impl AppError {
    /// The status of this error.
    pub closed spec fn status_code(&self) -> u16 {
        self.status
    }

    /// The text of this error.
    pub closed spec fn message_text(&self) -> Seq<char> {
        self.message@
    }

    /// An error for a request that is refused as it stands: status 400.
    pub fn bad_request(message: String) -> (r: AppError)
        ensures
            r.status_code() == 400,
            r.message_text() == message@,
    {
        AppError { status: 400, message }
    }

    /// An error for a node that the registry does not hold: status 404.
    pub fn not_found(message: String) -> (r: AppError)
        ensures
            r.status_code() == 404,
            r.message_text() == message@,
    {
        AppError { status: 404, message }
    }

    /// An error for a failure of the registry itself: status 500.
    pub fn internal(message: String) -> (r: AppError)
        ensures
            r.status_code() == 500,
            r.message_text() == message@,
    {
        AppError { status: 500, message }
    }

    /// The HTTP status that answers the request.
    pub fn status(&self) -> (r: u16)
        ensures
            r == self.status_code(),
    {
        self.status
    }

    /// The text for the caller.
    pub fn message(&self) -> (r: String)
        ensures
            r@ == self.message_text(),
    {
        self.message.clone()
    }
}

/// Checks the name under which a node is to be held.
///
/// A name that is empty once the white space at its ends is taken off is
/// refused as a bad request; every other name is accepted.
pub fn validate_name(name: &str) -> (r: Result<(), AppError>)
    ensures
        r is Ok <==> trimmed_of(name@).len() > 0,
        r matches Err(e) ==> e.status_code() == 400 && e.message_text()
            == "node name cannot be empty"@,
{
    if trim(name).is_empty() {
        Err(AppError::bad_request("node name cannot be empty".to_owned()))
    } else {
        Ok(())
    }
}

/// The name under which a node is held: the name given, without the white
/// space at its ends.
pub fn normalize_name(name: &str) -> (r: String)
    ensures
        r@ == trimmed_of(name@),
{
    trim(name).to_owned()
}

/// The role as the registry declares it to a node.
pub open spec fn declared_mode(mode: PortMappingMode) -> RemoteMode {
    match mode {
        PortMappingMode::Server => RemoteMode::Server,
        PortMappingMode::Client => RemoteMode::Client,
    }
}

/// The port mapping as the registry sends it to a node: the role, and the
/// tunnel configuration in its serialized form.
pub fn port_mapping_to_proto(spec: &PortMappingSpec) -> (r: RemotePortMapping)
    ensures
        r.mode == declared_mode(spec.mode),
        r.config_json@ == spec.config.blob_text(),
        role_of(r.mode) == Ok::<PortMappingMode, crate::resolver::FetchError>(spec.mode),
{
    let mode = match spec.mode {
        PortMappingMode::Server => RemoteMode::Server,
        PortMappingMode::Client => RemoteMode::Client,
    };
    RemotePortMapping { mode, config_json: spec.config.to_blob() }
}

/// What the registry holds of one node.
#[derive(Debug, Clone, PartialEq, Eq)]
pub struct NodeRecord {
    /// The name of the node; no two records have the same.
    pub name: String,
    pub reverse_proxy_bind: Option<String>,
    pub port_mapping_role: Option<String>,
    pub management_url: Option<String>,
    pub description: Option<String>,
    pub tags: Vec<String>,
    pub port_mapping: Option<PortMappingSpec>,
}

/// The text that says that the registry holds no node of this name.
pub open spec fn not_found_text(name: Seq<char>) -> Seq<char> {
    "node '"@ + name + "' not found"@
}

/// The error for a node that the registry does not hold.
pub fn node_not_found(name: &str) -> (r: AppError)
    ensures
        r.status_code() == 404,
        r.message_text() == not_found_text(name@),
{
    let mut message = "node '".to_owned();
    message.append(name);
    message.append("' not found");
    AppError::not_found(message)
}

/// Puts a record under the name by which it was addressed.
///
/// The name is checked as [`validate_name`] says. The record is handed back
/// under the name without the white space at its ends, and unchanged
/// otherwise.
pub fn named_record(name: &str, record: NodeRecord) -> (r: Result<NodeRecord, AppError>)
    ensures
        r is Ok <==> trimmed_of(name@).len() > 0,
        r matches Ok(named) ==> named.name@ == trimmed_of(name@) && named == (NodeRecord {
            name: named.name,
            ..record
        }),
        r matches Err(e) ==> e.status_code() == 400 && e.message_text()
            == "node name cannot be empty"@,
{
    match validate_name(name) {
        Err(e) => Err(e),
        Ok(()) => {
            let mut named = record;
            named.name = normalize_name(name);
            Ok(named)
        },
    }
}

/// Whether `answer` is what the registry answers a node that asks for its
/// configuration: the name of the record, and its port mapping as
/// [`port_mapping_to_proto`] sends it.
pub open spec fn answers(record: NodeRecord, answer: RemoteNodeConfig) -> bool {
    &&& answer.name@ == record.name@
    &&& match record.port_mapping {
        None => answer.port_mapping is None,
        Some(spec) => answer.port_mapping matches Some(sent) && sent.mode == declared_mode(
            spec.mode,
        ) && sent.config_json@ == spec.config.blob_text(),
    }
}

/// Answers a node that asks for the configuration held under `name`.
///
/// `record` is what the registry holds under that name. Without a record
/// the answer is the error of [`node_not_found`]; with one, the node's name
/// and its port mapping, if it has one.
pub fn get_node_config(name: &str, record: Option<&NodeRecord>) -> (r: Result<
    RemoteNodeConfig,
    AppError,
>)
    ensures
        match record {
            None => r matches Err(e) && e.status_code() == 404 && e.message_text()
                == not_found_text(name@),
            Some(held) => r matches Ok(answer) && answers(*held, answer),
        },
{
    match record {
        None => Err(node_not_found(name)),
        Some(held) => {
            let port_mapping = match &held.port_mapping {
                Some(spec) => Some(port_mapping_to_proto(spec)),
                None => None,
            };
            Ok(RemoteNodeConfig { name: held.name.clone(), port_mapping })
        },
    }
}

} // verus!
