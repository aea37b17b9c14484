//! The reverse proxy's routing table and the routing decision that is taken
//! for each request.
//!
//! The table is built once from the declared routes and never changed. Its
//! keys are hostnames in lower case; a request's hostname is put into lower
//! case before it is looked up, and nothing but an exact match counts.

use crate::config::ReverseProxyConfig;
use crate::model::ValidationError;
use crate::upstream::{build_peer, peer_of, peer_view, text_view, PeerModel, UpstreamPeer};
use vstd::prelude::*;

verus! {

/// The lower-case form of a text, as `str::to_lowercase` gives it.
pub uninterp spec fn lowercase_of(text: Seq<char>) -> Seq<char>;

/// Puts `text` into lower case with `str::to_lowercase`.
///
/// Trusted: the result is a function of the text alone, named
/// [`lowercase_of`].
#[verifier::external_body]
fn lowercase(text: &str) -> (r: String)
    ensures
        r@ == lowercase_of(text@),
{
    text.to_lowercase()
}

/// One line of the routing table: a hostname in lower case, and the peer
/// that requests for it go to.
#[derive(Debug, Clone, PartialEq, Eq)]
pub struct RouteEntry {
    pub hostname: String,
    pub upstream: UpstreamPeer,
}

/// The routing table as contracts speak of it: a peer for each hostname
/// that has one, and the peer for all others if there is one.
pub struct RoutingModel {
    pub entries: Map<Seq<char>, PeerModel>,
    pub default: Option<PeerModel>,
}

impl RoutingModel {
    /// The peer for `hostname`: the entry under its lower-case form, else
    /// the default.
    pub open spec fn resolve(self, hostname: Seq<char>) -> Option<PeerModel> {
        let key = lowercase_of(hostname);
        if self.entries.dom().contains(key) {
            Some(self.entries[key])
        } else {
            self.default
        }
    }
}

/// Why a request was not routed.
#[derive(Debug, Clone, Copy, PartialEq, Eq, Structural)]
pub enum RoutingError {
    /// The request names no host.
    MissingHost,
    /// The host has no route, and there is no default upstream.
    NoUpstreamConfigured,
}

impl RoutingError {
    /// The status of the response that stands for this error.
    pub open spec fn status_code(self) -> u16 {
        match self {
            RoutingError::MissingHost => 400,
            RoutingError::NoUpstreamConfigured => 502,
        }
    }

    /// The body of the response that stands for this error.
    pub open spec fn body_text(self) -> Seq<char> {
        match self {
            RoutingError::MissingHost => "missing host information"@,
            RoutingError::NoUpstreamConfigured => "no upstream configured for hostname"@,
        }
    }

    /// The HTTP status that answers a request which failed in this way: 400
    /// for a missing host, 502 for a host without upstream.
    pub fn status(&self) -> (r: u16)
        ensures
            r == self.status_code(),
    {
        match self {
            RoutingError::MissingHost => 400,
            RoutingError::NoUpstreamConfigured => 502,
        }
    }

    /// The text that answers a request which failed in this way.
    pub fn message(&self) -> (r: String)
        ensures
            r@ == self.body_text(),
    {
        match self {
            RoutingError::MissingHost => "missing host information".to_owned(),
            RoutingError::NoUpstreamConfigured => "no upstream configured for hostname".to_owned(),
        }
    }
}

/// What is kept of a request while it is routed.
#[derive(Debug, Clone, PartialEq, Eq)]
pub struct RequestContext {
    /// The hostname that the request asked for, once it has been read.
    pub hostname: Option<String>,
}

impl Default for RequestContext {
    fn default() -> (r: Self)
        ensures
            r.hostname is None,
    {
        RequestContext { hostname: None }
    }
}

/// The view of a header value that may be absent.
pub open spec fn header_view(value: Option<&str>) -> Option<Seq<char>> {
    match value {
        Some(v) => Some(v@),
        None => None,
    }
}

/// The hostname that a `Host` header gives: its value, unless the header is
/// absent or empty.
pub open spec fn hostname_of(host_header: Option<Seq<char>>) -> Option<Seq<char>> {
    match host_header {
        Some(value) => if value.len() == 0 {
            None
        } else {
            Some(value)
        },
        None => None,
    }
}

/// The fate of a request with the given `Host` header before `table`.
pub open spec fn routed(table: RoutingModel, host_header: Option<Seq<char>>) -> Result<
    PeerModel,
    RoutingError,
> {
    match hostname_of(host_header) {
        None => Err(RoutingError::MissingHost),
        Some(hostname) => match table.resolve(hostname) {
            Some(peer) => Ok(peer),
            None => Err(RoutingError::NoUpstreamConfigured),
        },
    }
}

/// The error of the first declared route whose upstream URL is refused.
pub open spec fn first_route_error(routes: Seq<(String, String)>) -> Option<ValidationError>
    decreases routes.len(),
{
    if routes.len() == 0 {
        None
    } else {
        match peer_of(routes[0].1@) {
            Err(e) => Some(e),
            Ok(_) => first_route_error(routes.skip(1)),
        }
    }
}

/// The entries that the declared routes give: each hostname in lower case
/// with the peer of its URL, a later route replacing an earlier one of the
/// same hostname.
pub open spec fn declared_entries(routes: Seq<(String, String)>) -> Map<Seq<char>, PeerModel>
    decreases routes.len(),
{
    if routes.len() == 0 {
        Map::empty()
    } else {
        let earlier = declared_entries(routes.drop_last());
        match peer_of(routes.last().1@) {
            Ok(peer) => earlier.insert(lowercase_of(routes.last().0@), peer),
            Err(_) => earlier,
        }
    }
}

/// The table that a configuration gives, or the error it is refused with:
/// that of the first refused route, else that of the default upstream.
pub open spec fn built(routes: Seq<(String, String)>, default_upstream: Option<Seq<char>>) -> Result<
    RoutingModel,
    ValidationError,
> {
    match first_route_error(routes) {
        Some(e) => Err(e),
        None => match default_upstream {
            None => Ok(RoutingModel { entries: declared_entries(routes), default: None }),
            Some(target) => match peer_of(target) {
                Err(e) => Err(e),
                Ok(peer) => Ok(
                    RoutingModel { entries: declared_entries(routes), default: Some(peer) },
                ),
            },
        },
    }
}

/// Whether no two of the entries have the same hostname.
spec fn keys_distinct(entries: Seq<RouteEntry>) -> bool {
    forall|i: int, j: int|
        #![trigger entries[i], entries[j]]
        0 <= i < j < entries.len() ==> entries[i].hostname@ != entries[j].hostname@
}

/// Whether one of the entries has the hostname `key`.
spec fn holds_key(entries: Seq<RouteEntry>, key: Seq<char>) -> bool {
    exists|i: int| #![trigger entries[i]] 0 <= i < entries.len() && entries[i].hostname@ == key
}

/// The place of an entry with the hostname `key`.
spec fn position_of(entries: Seq<RouteEntry>, key: Seq<char>) -> int {
    choose|i: int| #![trigger entries[i]] 0 <= i < entries.len() && entries[i].hostname@ == key
}

/// The map that the entries stand for.
spec fn table_of(entries: Seq<RouteEntry>) -> Map<Seq<char>, PeerModel> {
    Map::new(
        |key: Seq<char>| holds_key(entries, key),
        |key: Seq<char>| entries[position_of(entries, key)].upstream@,
    )
}

/// Among distinct keys, an entry is found at its own place.
proof fn lemma_entry_found(entries: Seq<RouteEntry>, i: int)
    requires
        keys_distinct(entries),
        0 <= i < entries.len(),
    ensures
        holds_key(entries, entries[i].hostname@),
        position_of(entries, entries[i].hostname@) == i,
        table_of(entries).dom().contains(entries[i].hostname@),
        table_of(entries)[entries[i].hostname@] == entries[i].upstream@,
{
    let key = entries[i].hostname@;
    let p = position_of(entries, key);
    assert(0 <= p < entries.len() && entries[p].hostname@ == key);
    if p < i {
        assert(entries[p].hostname@ != entries[i].hostname@);
    } else if i < p {
        assert(entries[i].hostname@ != entries[p].hostname@);
    }
}

/// A new entry under a new key adds that key to the map.
proof fn lemma_push_entry(entries: Seq<RouteEntry>, entry: RouteEntry)
    requires
        keys_distinct(entries),
        !holds_key(entries, entry.hostname@),
    ensures
        keys_distinct(entries.push(entry)),
        table_of(entries.push(entry)) == table_of(entries).insert(
            entry.hostname@,
            entry.upstream@,
        ),
{
    let after = entries.push(entry);
    let n = entries.len() as int;
    assert forall|i: int, j: int| 0 <= i < j < after.len() implies after[i].hostname@
        != after[j].hostname@ by {
        if j < n {
            assert(entries[i].hostname@ != entries[j].hostname@);
        } else {
            assert(entries[i] == after[i]);
        }
    }
    let expected = table_of(entries).insert(entry.hostname@, entry.upstream@);
    assert forall|key: Seq<char>| table_of(after).dom().contains(key) <==> expected.dom().contains(
        key,
    ) by {
        if holds_key(after, key) {
            let p = position_of(after, key);
            if p < n {
                assert(entries[p].hostname@ == key);
            }
        }
        if holds_key(entries, key) {
            let p = position_of(entries, key);
            assert(after[p].hostname@ == key);
        }
        if key == entry.hostname@ {
            assert(after[n].hostname@ == key);
        }
    }
    assert forall|key: Seq<char>| table_of(after).dom().contains(key) implies table_of(after)[key]
        == expected[key] by {
        let p = position_of(after, key);
        lemma_entry_found(after, p);
        if p < n {
            assert(entries[p] == after[p]);
            lemma_entry_found(entries, p);
        }
    }
    assert(table_of(after) =~= expected);
}

/// An entry put in the place of one with the same key replaces its peer.
proof fn lemma_replace_entry(entries: Seq<RouteEntry>, at: int, entry: RouteEntry)
    requires
        keys_distinct(entries),
        0 <= at < entries.len(),
        entries[at].hostname@ == entry.hostname@,
    ensures
        keys_distinct(entries.update(at, entry)),
        table_of(entries.update(at, entry)) == table_of(entries).insert(
            entry.hostname@,
            entry.upstream@,
        ),
{
    let after = entries.update(at, entry);
    assert forall|i: int, j: int| 0 <= i < j < after.len() implies after[i].hostname@
        != after[j].hostname@ by {
        assert(entries[i].hostname@ != entries[j].hostname@);
    }
    let expected = table_of(entries).insert(entry.hostname@, entry.upstream@);
    assert forall|key: Seq<char>| table_of(after).dom().contains(key) <==> expected.dom().contains(
        key,
    ) by {
        if holds_key(after, key) {
            let p = position_of(after, key);
            assert(entries[p].hostname@ == key);
        }
        if holds_key(entries, key) {
            let p = position_of(entries, key);
            assert(after[p].hostname@ == key);
        }
        if key == entry.hostname@ {
            assert(after[at].hostname@ == key);
        }
    }
    assert forall|key: Seq<char>| table_of(after).dom().contains(key) implies table_of(after)[key]
        == expected[key] by {
        let p = position_of(after, key);
        lemma_entry_found(after, p);
        if p != at {
            assert(entries[p] == after[p]);
            lemma_entry_found(entries, p);
        }
    }
    assert(table_of(after) =~= expected);
}

/// The place of the entry with the hostname `key`, if there is one.
fn find_entry(entries: &Vec<RouteEntry>, key: &String) -> (r: Option<usize>)
    ensures
        match r {
            Some(i) => i < entries.len() && entries[i as int].hostname@ == key@,
            None => !holds_key(entries@, key@),
        },
{
    let mut i: usize = 0;
    while i < entries.len()
        invariant
            i <= entries.len(),
            forall|j: int| 0 <= j < i ==> (#[trigger] entries[j]).hostname@ != key@,
        decreases entries.len() - i,
    {
        if entries[i].hostname == *key {
            return Some(i);
        }
        i += 1;
    }
    None
}

/// Puts `entry` into the table: in the place of the entry with its hostname
/// if there is one, else at the end.
fn put_entry(entries: &mut Vec<RouteEntry>, entry: RouteEntry)
    requires
        keys_distinct(old(entries)@),
    ensures
        keys_distinct(final(entries)@),
        table_of(final(entries)@) == table_of(old(entries)@).insert(
            entry.hostname@,
            entry.upstream@,
        ),
{
    match find_entry(entries, &entry.hostname) {
        Some(at) => {
            proof {
                lemma_replace_entry(entries@, at as int, entry);
            }
            entries.set(at, entry);
        },
        None => {
            proof {
                lemma_push_entry(entries@, entry);
            }
            entries.push(entry);
        },
    }
}

/// The reverse proxy's routing table.
#[derive(Debug)]
pub struct ReverseProxy {
    routes: Vec<RouteEntry>,
    default: Option<UpstreamPeer>,
}

impl View for ReverseProxy {
    type V = RoutingModel;

    closed spec fn view(&self) -> RoutingModel {
        RoutingModel { entries: table_of(self.routes@), default: peer_view(self.default) }
    }
}

impl ReverseProxy {
    /// What holds of every table: no hostname has two entries.
    #[verifier::type_invariant]
    spec fn no_hostname_twice(&self) -> bool {
        keys_distinct(self.routes@)
    }

    /// Builds the table from the declared routes and the default upstream.
    ///
    /// Each route's URL is resolved to a peer and stored under the route's
    /// hostname in lower case; of two routes with the same hostname the later
    /// one stays. The first URL that is refused, the default's last, fails the
    /// whole build with its error.
    pub fn from_config(config: &ReverseProxyConfig) -> (r: Result<ReverseProxy, ValidationError>)
        ensures
            match r {
                Ok(proxy) => built(config.routes@, text_view(config.default_upstream)) == Ok::<
                    RoutingModel,
                    ValidationError,
                >(proxy@),
                Err(e) => built(config.routes@, text_view(config.default_upstream)) == Err::<
                    RoutingModel,
                    ValidationError,
                >(e),
            },
    {
        let ghost declared = config.routes@;
        let mut entries: Vec<RouteEntry> = Vec::new();
        let mut i: usize = 0;
        proof {
            assert(declared.skip(0) =~= declared);
            assert(table_of(entries@) =~= declared_entries(declared.take(0)));
        }
        while i < config.routes.len()
            invariant
                declared == config.routes@,
                i <= declared.len(),
                keys_distinct(entries@),
                first_route_error(declared) == first_route_error(declared.skip(i as int)),
                table_of(entries@) == declared_entries(declared.take(i as int)),
            decreases declared.len() - i,
        {
            let route = &config.routes[i];
            proof {
                assert(declared.skip(i as int)[0] == declared[i as int]);
                assert(declared.skip(i as int).skip(1) =~= declared.skip(i as int + 1));
                assert(declared.take(i as int + 1).drop_last() =~= declared.take(i as int));
                assert(declared.take(i as int + 1).last() == declared[i as int]);
            }
            let peer = match build_peer(route.1.as_str()) {
                Ok(peer) => peer,
                Err(e) => {
                    return Err(e);
                },
            };
            let hostname = lowercase(route.0.as_str());
            put_entry(&mut entries, RouteEntry { hostname, upstream: peer });
            i += 1;
        }
        proof {
            assert(declared.take(declared.len() as int) =~= declared);
        }
        let default = match &config.default_upstream {
            Some(target) => match build_peer(target.as_str()) {
                Ok(peer) => Some(peer),
                Err(e) => {
                    return Err(e);
                },
            },
            None => None,
        };
        Ok(ReverseProxy { routes: entries, default })
    }

    /// The peer that requests for `hostname` go to: the entry under the
    /// hostname in lower case, else the default upstream, else none.
    pub fn resolve_route(&self, hostname: &str) -> (r: Option<UpstreamPeer>)
        ensures
            peer_view(r) == self@.resolve(hostname@),
    {
        proof {
            use_type_invariant(self);
        }
        let key = lowercase(hostname);
        match find_entry(&self.routes, &key) {
            Some(at) => {
                proof {
                    lemma_entry_found(self.routes@, at as int);
                }
                Some(self.routes[at].upstream.duplicate())
            },
            None => match &self.default {
                Some(peer) => Some(peer.duplicate()),
                None => None,
            },
        }
    }

    /// The hostname that a request asks for: the value of its `Host` header,
    /// unless the header is absent or empty.
    pub fn extract_hostname(host_header: Option<&str>) -> (r: Option<String>)
        ensures
            text_view(r) == hostname_of(header_view(host_header)),
    {
        match host_header {
            Some(value) => if value.is_empty() {
                None
            } else {
                Some(value.to_owned())
            },
            None => None,
        }
    }

    /// The context of a request that has just come in: no hostname yet.
    pub fn new_ctx(&self) -> (r: RequestContext)
        ensures
            r.hostname is None,
    {
        RequestContext::default()
    }

    /// Reads the request's hostname into its context, once and for good.
    ///
    /// A request without hostname is rejected as `MissingHost`, whatever the
    /// table holds; every other request goes on to
    /// [`ReverseProxy::upstream_peer`].
    pub fn request_filter(&self, host_header: Option<&str>, ctx: &mut RequestContext) -> (r: Result<
        (),
        RoutingError,
    >)
        ensures
            text_view(final(ctx).hostname) == hostname_of(header_view(host_header)),
            r == (match hostname_of(header_view(host_header)) {
                Some(_) => Ok::<(), RoutingError>(()),
                None => Err::<(), RoutingError>(RoutingError::MissingHost),
            }),
    {
        ctx.hostname = Self::extract_hostname(host_header);
        if ctx.hostname.is_none() {
            return Err(RoutingError::MissingHost);
        }
        Ok(())
    }

    /// Selects the upstream for a request whose hostname has been read.
    ///
    /// The peer is the one that the table resolves the hostname to. Where the
    /// table has none, or the context holds no hostname, the request fails as
    /// `NoUpstreamConfigured`.
    pub fn upstream_peer(&self, ctx: &RequestContext) -> (r: Result<UpstreamPeer, RoutingError>)
        ensures
            match r {
                Ok(peer) => ctx.hostname matches Some(hostname) && self@.resolve(hostname@) == Some(
                    peer@,
                ),
                Err(e) => e == RoutingError::NoUpstreamConfigured && (ctx.hostname matches Some(
                    hostname,
                ) ==> self@.resolve(hostname@) is None),
            },
    {
        if let Some(hostname) = &ctx.hostname {
            if let Some(peer) = self.resolve_route(hostname.as_str()) {
                return Ok(peer);
            }
        }
        Err(RoutingError::NoUpstreamConfigured)
    }

    /// Routes one request from its `Host` header: hostname extraction, then
    /// upstream selection.
    pub fn route(&self, host_header: Option<&str>) -> (r: Result<UpstreamPeer, RoutingError>)
        ensures
            match r {
                Ok(peer) => routed(self@, header_view(host_header)) == Ok::<
                    PeerModel,
                    RoutingError,
                >(peer@),
                Err(e) => routed(self@, header_view(host_header)) == Err::<
                    PeerModel,
                    RoutingError,
                >(e),
            },
    {
        let mut ctx = self.new_ctx();
        match self.request_filter(host_header, &mut ctx) {
            Err(e) => Err(e),
            Ok(()) => self.upstream_peer(&ctx),
        }
    }
}

/// Where no route is refused, every route's URL stands for a peer.
pub proof fn lemma_no_error_means_all_resolved(routes: Seq<(String, String)>)
    requires
        first_route_error(routes) is None,
    ensures
        forall|i: int| 0 <= i < routes.len() ==> peer_of((#[trigger] routes[i]).1@) is Ok,
    decreases routes.len(),
{
    if routes.len() > 0 {
        let rest = routes.skip(1);
        lemma_no_error_means_all_resolved(rest);
        assert forall|i: int| 0 <= i < routes.len() implies peer_of((#[trigger] routes[i]).1@)
            is Ok by {
            if i > 0 {
                assert(rest[i - 1] == routes[i]);
            }
        }
    }
}

/// Where every route's URL stands for a peer, each declared hostname has an
/// entry under its lower-case form, and the entry is the peer of the last
/// route declared for that form.
pub proof fn lemma_declared_entry(routes: Seq<(String, String)>, i: int)
    requires
        0 <= i < routes.len(),
        forall|k: int| 0 <= k < routes.len() ==> peer_of((#[trigger] routes[k]).1@) is Ok,
    ensures
        declared_entries(routes).dom().contains(lowercase_of(routes[i].0@)),
        (forall|j: int|
            i < j < routes.len() ==> lowercase_of((#[trigger] routes[j]).0@) != lowercase_of(
                routes[i].0@,
            )) ==> declared_entries(routes)[lowercase_of(routes[i].0@)] == peer_of(
            routes[i].1@,
        )->Ok_0,
    decreases routes.len(),
{
    let earlier = routes.drop_last();
    let last = routes.last();
    assert(peer_of(last.1@) is Ok);
    if i < routes.len() - 1 {
        assert forall|k: int| 0 <= k < earlier.len() implies peer_of((#[trigger] earlier[k]).1@)
            is Ok by {
            assert(earlier[k] == routes[k]);
        }
        assert(earlier[i] == routes[i]);
        lemma_declared_entry(earlier, i);
        if forall|j: int|
            i < j < routes.len() ==> lowercase_of((#[trigger] routes[j]).0@) != lowercase_of(
                routes[i].0@,
            ) {
            assert forall|j: int| i < j < earlier.len() implies lowercase_of(
                (#[trigger] earlier[j]).0@,
            ) != lowercase_of(earlier[i].0@) by {
                assert(earlier[j] == routes[j]);
            }
            assert(lowercase_of(last.0@) != lowercase_of(routes[i].0@));
        }
    }
}

/// Hostnames that differ in case only resolve alike, in every table.
pub proof fn lemma_resolve_ignores_case(table: RoutingModel, a: Seq<char>, b: Seq<char>)
    requires
        lowercase_of(a) == lowercase_of(b),
    ensures
        table.resolve(a) == table.resolve(b),
{
}

/// In a table that was built, every casing variant of a declared hostname
/// resolves to a peer, the same one as the hostname itself: the peer of the
/// last route declared for it.
pub proof fn lemma_declared_hostname_resolves(
    routes: Seq<(String, String)>,
    default_upstream: Option<Seq<char>>,
    i: int,
    variant: Seq<char>,
)
    requires
        built(routes, default_upstream) is Ok,
        0 <= i < routes.len(),
        lowercase_of(variant) == lowercase_of(routes[i].0@),
    ensures
        built(routes, default_upstream)->Ok_0.resolve(variant) is Some,
        built(routes, default_upstream)->Ok_0.resolve(variant) == built(
            routes,
            default_upstream,
        )->Ok_0.resolve(routes[i].0@),
        (forall|j: int|
            i < j < routes.len() ==> lowercase_of((#[trigger] routes[j]).0@) != lowercase_of(
                routes[i].0@,
            )) ==> built(routes, default_upstream)->Ok_0.resolve(variant) == Some(
            peer_of(routes[i].1@)->Ok_0,
        ),
{
    lemma_no_error_means_all_resolved(routes);
    lemma_declared_entry(routes, i);
}

/// A request without hostname is rejected as `MissingHost`, and the table has
/// no part in it: before any two tables its fate is the same.
pub proof fn lemma_missing_host_rejected(
    table: RoutingModel,
    other: RoutingModel,
    host_header: Option<Seq<char>>,
)
    requires
        hostname_of(host_header) is None,
    ensures
        routed(table, host_header) == Err::<PeerModel, RoutingError>(RoutingError::MissingHost),
        routed(table, host_header) == routed(other, host_header),
{
}

/// A hostname without entry goes to the default upstream if there is one,
/// and fails as `NoUpstreamConfigured` if there is none.
pub proof fn lemma_unknown_host_takes_default(table: RoutingModel, hostname: Seq<char>)
    requires
        !table.entries.dom().contains(lowercase_of(hostname)),
        hostname.len() > 0,
    ensures
        table.resolve(hostname) == table.default,
        table.default matches Some(peer) ==> routed(table, Some(hostname)) == Ok::<
            PeerModel,
            RoutingError,
        >(peer),
        table.default is None ==> routed(table, Some(hostname)) == Err::<PeerModel, RoutingError>(
            RoutingError::NoUpstreamConfigured,
        ),
{
}

} // verus!
