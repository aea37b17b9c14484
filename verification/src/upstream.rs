//! Upstream peers: the target that an upstream URL resolves to.
//!
//! URLs are taken apart by the `url` crate. What this module decides is what
//! follows: which error a URL without host or port gives, which port a scheme
//! stands for, and which schemes ask for TLS.

use crate::model::ValidationError;
use vstd::prelude::*;

verus! {

/// The error with which the `url` crate refuses a string.
#[verifier::external_type_specification]
#[verifier::external_body]
pub struct ExUrlParseError(url::ParseError);

/// The network target of proxied requests, as contracts speak of it.
pub struct PeerModel {
    pub host: Seq<char>,
    pub port: u16,
    pub use_tls: bool,
    pub display_name: Seq<char>,
}

/// The network target that proxied requests are forwarded to.
#[derive(Debug, Clone, PartialEq, Eq)]
pub struct UpstreamPeer {
    pub host: String,
    pub port: u16,
    pub use_tls: bool,
    pub display_name: String,
}

impl View for UpstreamPeer {
    type V = PeerModel;

    open spec fn view(&self) -> PeerModel {
        PeerModel {
            host: self.host@,
            port: self.port,
            use_tls: self.use_tls,
            display_name: self.display_name@,
        }
    }
}

impl UpstreamPeer {
    /// A peer equal to this one.
    pub fn duplicate(&self) -> (r: UpstreamPeer)
        ensures
            r@ == self@,
    {
        UpstreamPeer {
            host: self.host.clone(),
            port: self.port,
            use_tls: self.use_tls,
            display_name: self.display_name.clone(),
        }
    }
}

/// The view of a peer that may be absent.
pub open spec fn peer_view(peer: Option<UpstreamPeer>) -> Option<PeerModel> {
    match peer {
        Some(p) => Some(p@),
        None => None,
    }
}

/// The view of a text that may be absent.
pub open spec fn text_view(text: Option<String>) -> Option<Seq<char>> {
    match text {
        Some(t) => Some(t@),
        None => None,
    }
}

/// The parts of an absolute URL that routing reads: the scheme, the host if
/// the URL has one, and the port as far as the URL keeps one (a port that is
/// the default of the scheme is not kept).
#[derive(Debug, Clone, PartialEq, Eq)]
pub struct UrlParts {
    pub scheme: String,
    pub host: Option<String>,
    pub port: Option<u16>,
}

impl View for UrlParts {
    type V = (Seq<char>, Option<Seq<char>>, Option<u16>);

    open spec fn view(&self) -> (Seq<char>, Option<Seq<char>>, Option<u16>) {
        (self.scheme@, text_view(self.host), self.port)
    }
}

/// What the `url` crate makes of a string: nothing where it is no absolute
/// URL, else the scheme, the host and the port of the URL it parsed.
pub uninterp spec fn url_parts(target: Seq<char>) -> Option<
    (Seq<char>, Option<Seq<char>>, Option<u16>),
>;

/// Parses `target` with `url::Url::parse` and reads the parsed URL's
/// `scheme`, `host_str` and `port`.
///
/// Trusted: the result is a function of the string alone, named
/// [`url_parts`]; an error stands for a string that is no absolute URL.
#[verifier::external_body]
fn split_url(target: &str) -> (r: Result<UrlParts, url::ParseError>)
    ensures
        r matches Ok(parts) ==> url_parts(target@) == Some(parts@),
        r is Err ==> url_parts(target@) is None,
{
    url::Url::parse(target).map(
        |u|
            UrlParts {
                scheme: u.scheme().to_owned(),
                host: u.host_str().map(|h| h.to_owned()),
                port: u.port(),
            },
    )
}

/// Whether `text` reads as `word`.
fn reads_as(text: &String, word: &str) -> (r: bool)
    ensures
        r == (text@ == word@),
{
    let owned = word.to_owned();
    *text == owned
}

/// The port that a scheme stands for where a URL gives none: 80 for `http`
/// and `ws`, 443 for `https` and `wss`, 21 for `ftp`. These are the defaults
/// that `url::Url::port_or_known_default` knows.
pub open spec fn default_port_of(scheme: Seq<char>) -> Option<u16> {
    if scheme == "http"@ || scheme == "ws"@ {
        Some(80u16)
    } else if scheme == "https"@ || scheme == "wss"@ {
        Some(443u16)
    } else if scheme == "ftp"@ {
        Some(21u16)
    } else {
        None
    }
}

/// The port of a URL: the one it keeps, else the default of its scheme.
pub open spec fn effective_port(scheme: Seq<char>, port: Option<u16>) -> Option<u16> {
    match port {
        Some(p) => Some(p),
        None => default_port_of(scheme),
    }
}

/// Whether requests to a URL of this scheme go over TLS.
pub open spec fn scheme_uses_tls(scheme: Seq<char>) -> bool {
    scheme == "https"@ || scheme == "wss"@
}

/// The peer that the parts of a URL stand for, or the error they give.
pub open spec fn peer_from(parts: (Seq<char>, Option<Seq<char>>, Option<u16>)) -> Result<
    PeerModel,
    ValidationError,
> {
    match parts.1 {
        None => Err(ValidationError::MissingHost),
        Some(host) => match effective_port(parts.0, parts.2) {
            None => Err(ValidationError::MissingPort),
            Some(port) => Ok(
                PeerModel {
                    host: host,
                    port: port,
                    use_tls: scheme_uses_tls(parts.0),
                    display_name: host,
                },
            ),
        },
    }
}

/// The peer that an upstream URL stands for, or the error it gives.
pub open spec fn peer_of(target: Seq<char>) -> Result<PeerModel, ValidationError> {
    match url_parts(target) {
        None => Err(ValidationError::InvalidUrl),
        Some(parts) => peer_from(parts),
    }
}

/// Whether a result of building a peer is the one that `expected` asks for.
pub open spec fn peer_result_matches(
    r: Result<UpstreamPeer, ValidationError>,
    expected: Result<PeerModel, ValidationError>,
) -> bool {
    match r {
        Ok(peer) => expected == Ok::<PeerModel, ValidationError>(peer@),
        Err(e) => expected == Err::<PeerModel, ValidationError>(e),
    }
}

/// The default port of a scheme, if it has a known one.
pub fn known_default_port(scheme: &String) -> (r: Option<u16>)
    ensures
        r == default_port_of(scheme@),
{
    if reads_as(scheme, "http") || reads_as(scheme, "ws") {
        Some(80)
    } else if reads_as(scheme, "https") || reads_as(scheme, "wss") {
        Some(443)
    } else if reads_as(scheme, "ftp") {
        Some(21)
    } else {
        None
    }
}

/// Builds the peer that the parts of a URL stand for.
///
/// A URL without host gives `MissingHost`. The port is the one the URL keeps,
/// else the default of the scheme; where there is neither, the result is
/// `MissingPort`. TLS is asked for by `https` and `wss`. The peer is
/// displayed under its host.
pub fn peer_from_parts(parts: UrlParts) -> (r: Result<UpstreamPeer, ValidationError>)
    ensures
        peer_result_matches(r, peer_from(parts@)),
{
    let UrlParts { scheme, host, port } = parts;
    let host = match host {
        Some(h) => h,
        None => {
            return Err(ValidationError::MissingHost);
        },
    };
    let port = match port {
        Some(p) => p,
        None => match known_default_port(&scheme) {
            Some(p) => p,
            None => {
                return Err(ValidationError::MissingPort);
            },
        },
    };
    let use_tls = reads_as(&scheme, "https") || reads_as(&scheme, "wss");
    let display_name = host.clone();
    Ok(UpstreamPeer { host, port, use_tls, display_name })
}

/// Builds the peer that an upstream URL stands for.
///
/// A string that is no absolute URL gives `InvalidUrl`; what a parsed URL
/// gives is said at [`peer_from_parts`].
pub fn build_peer(target: &str) -> (r: Result<UpstreamPeer, ValidationError>)
    ensures
        peer_result_matches(r, peer_of(target@)),
{
    match split_url(target) {
        Ok(parts) => peer_from_parts(parts),
        Err(_) => Err(ValidationError::InvalidUrl),
    }
}

} // verus!
