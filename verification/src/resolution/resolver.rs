//! The resolver: which network to ask, over which connection, for what, and
//! what to make of the answer.
//!
//! The resolver itself sends nothing. It holds the configured networks and
//! the table of connections that stand, and says for each resolution what is
//! to be sent where. Whoever drives it opens the connections, sends the
//! queries and hands back the answers.

use crate::error::{DidCheqdError, DidCheqdResult};
use crate::proto::{
    CheqdDidDoc, CheqdDidDocMetadata, CheqdResourceMetadata, DidDocWithMetadata,
    ResourceWithMetadata, Timestamp,
};
use crate::resolution::parser::{map_of, text_of, DidCheqdParsed};
use crate::resolution::revisions::{
    eligible, is_selected, lemma_selection_is_unique, select_revision,
};
use crate::resolution::selector::{
    selection, selection_error, time_of, ResourceSelector, Selection, SelectionFailure,
};
use crate::text::{
    decimal, decimal_string, lemma_position, lemma_position_unique, position, str_eq,
};
use vstd::prelude::*;
use vstd::string::StringExecFns;

verus! {

/// The namespace of the cheqd mainnet, as it stands in a DID.
pub const MAINNET_NAMESPACE: &'static str = "mainnet";

/// The gRPC URL of the cheqd mainnet.
pub const MAINNET_DEFAULT_GRPC: &'static str = "https://grpc.cheqd.net:443";

/// The namespace of the cheqd testnet, as it stands in a DID.
pub const TESTNET_NAMESPACE: &'static str = "testnet";

/// The gRPC URL of the cheqd testnet.
pub const TESTNET_DEFAULT_GRPC: &'static str = "https://grpc.cheqd.network:443";

/// Which networks a resolver can resolve from.
#[derive(Debug, PartialEq, Eq)]
pub struct DidCheqdResolverConfiguration {
    pub networks: Vec<NetworkConfiguration>,
}

/// One cheqd network: where its node is reached, and the namespace that
/// stands for it in a DID (`did:cheqd:<namespace>:<id>`).
#[derive(Debug, PartialEq, Eq)]
pub struct NetworkConfiguration {
    pub grpc_url: String,
    pub namespace: String,
}

impl NetworkConfiguration {
    /// The cheqd mainnet.
    pub fn mainnet() -> (network: Self)
        ensures
            network.grpc_url@ == MAINNET_DEFAULT_GRPC@,
            network.namespace@ == MAINNET_NAMESPACE@,
    {
        NetworkConfiguration {
            grpc_url: String::from_str(MAINNET_DEFAULT_GRPC),
            namespace: String::from_str(MAINNET_NAMESPACE),
        }
    }

    /// The cheqd testnet.
    pub fn testnet() -> (network: Self)
        ensures
            network.grpc_url@ == TESTNET_DEFAULT_GRPC@,
            network.namespace@ == TESTNET_NAMESPACE@,
    {
        NetworkConfiguration {
            grpc_url: String::from_str(TESTNET_DEFAULT_GRPC),
            namespace: String::from_str(TESTNET_NAMESPACE),
        }
    }
}

impl Clone for NetworkConfiguration {
    fn clone(&self) -> (copy: Self)
        ensures
            copy == *self,
    {
        NetworkConfiguration { grpc_url: self.grpc_url.clone(), namespace: self.namespace.clone() }
    }
}

impl Default for DidCheqdResolverConfiguration {
    /// The mainnet and the testnet, in this order.
    fn default() -> (configuration: Self)
        ensures
            configuration.networks@.len() == 2,
            configuration.networks@[0].namespace@ == MAINNET_NAMESPACE@,
            configuration.networks@[0].grpc_url@ == MAINNET_DEFAULT_GRPC@,
            configuration.networks@[1].namespace@ == TESTNET_NAMESPACE@,
            configuration.networks@[1].grpc_url@ == TESTNET_DEFAULT_GRPC@,
    {
        let mut networks: Vec<NetworkConfiguration> = Vec::new();
        networks.push(NetworkConfiguration::mainnet());
        networks.push(NetworkConfiguration::testnet());
        DidCheqdResolverConfiguration { networks }
    }
}

impl Clone for DidCheqdResolverConfiguration {
    fn clone(&self) -> (copy: Self)
        ensures
            copy.networks@ == self.networks@,
    {
        let mut networks: Vec<NetworkConfiguration> = Vec::new();
        let mut i: usize = 0;
        while i < self.networks.len()
            invariant
                i <= self.networks.len(),
                networks@ == self.networks@.take(i as int),
            decreases self.networks.len() - i,
        {
            networks.push(self.networks[i].clone());
            assert(networks@ =~= self.networks@.take(i + 1));
            i += 1;
        }
        assert(networks@ =~= self.networks@);
        DidCheqdResolverConfiguration { networks }
    }
}

/// A query to a cheqd node.
#[derive(Debug, PartialEq, Eq)]
pub enum Request {
    /// For the latest version of the DID document of `id`.
    DidDoc { id: String },
    /// For the version `version` of the DID document of `id`.
    DidDocVersion { id: String, version: String },
    /// For the resource `id` of the collection `collection_id`.
    Resource { collection_id: String, id: String },
    /// For what is recorded about every resource of the collection `collection_id`.
    CollectionResources { collection_id: String },
}

/// A query, by the text of its parts.
pub enum RequestText {
    DidDoc { id: Seq<char> },
    DidDocVersion { id: Seq<char>, version: Seq<char> },
    Resource { collection_id: Seq<char>, id: Seq<char> },
    CollectionResources { collection_id: Seq<char> },
}

impl View for Request {
    type V = RequestText;

    open spec fn view(&self) -> RequestText {
        match self {
            Request::DidDoc { id } => RequestText::DidDoc { id: id@ },
            Request::DidDocVersion { id, version } => RequestText::DidDocVersion {
                id: id@,
                version: version@,
            },
            Request::Resource { collection_id, id } => RequestText::Resource {
                collection_id: collection_id@,
                id: id@,
            },
            Request::CollectionResources { collection_id } => RequestText::CollectionResources {
                collection_id: collection_id@,
            },
        }
    }
}

/// How the node of a network is reached.
#[derive(Debug, PartialEq, Eq)]
pub enum Route {
    /// Over the connection that stands in `slot`.
    Cached { slot: usize },
    /// Over a connection that is yet to be opened, to the node at `grpc_url`.
    /// Once it stands, it is to be recorded under `namespace`.
    Connect { namespace: String, grpc_url: String },
}

/// A route, by the text of its parts.
pub enum RouteText {
    Cached { slot: int },
    Connect { namespace: Seq<char>, grpc_url: Seq<char> },
}

impl View for Route {
    type V = RouteText;

    open spec fn view(&self) -> RouteText {
        match self {
            Route::Cached { slot } => RouteText::Cached { slot: *slot as int },
            Route::Connect { namespace, grpc_url } => RouteText::Connect {
                namespace: namespace@,
                grpc_url: grpc_url@,
            },
        }
    }
}

/// One step of a resolution: `request`, to be sent by `route`.
#[derive(Debug, PartialEq, Eq)]
pub struct Plan {
    pub route: Route,
    pub request: Request,
}

/// Why no route leads to the network of a namespace.
pub enum RouteFailure {
    /// No network is configured for the namespace.
    NetworkNotSupported,
    /// The URL of the network's node is no URI.
    BadConfiguration,
}

/// Whether `url` can be read as the URI of an endpoint.
pub uninterp spec fn is_endpoint_uri(url: Seq<char>) -> bool;

/// The namespaces of `networks`, in their order.
pub open spec fn namespaces_of(networks: Seq<NetworkConfiguration>) -> Seq<Seq<char>> {
    Seq::new(networks.len(), |i: int| networks[i].namespace@)
}

/// Whether a network is configured for `namespace`.
pub open spec fn is_configured(networks: Seq<NetworkConfiguration>, namespace: Seq<char>) -> bool {
    namespaces_of(networks).contains(namespace)
}

/// The route to the network of `namespace`: the connection that stands for
/// it, else a new connection to the first network configured for it.
pub open spec fn route_of(
    networks: Seq<NetworkConfiguration>,
    connections: Seq<Seq<char>>,
    namespace: Seq<char>,
) -> Result<RouteText, RouteFailure> {
    if connections.contains(namespace) {
        Ok(RouteText::Cached { slot: position(connections, namespace) })
    } else if !is_configured(networks, namespace) {
        Err(RouteFailure::NetworkNotSupported)
    } else {
        let network = networks[position(namespaces_of(networks), namespace)];
        if is_endpoint_uri(network.grpc_url@) {
            Ok(RouteText::Connect { namespace, grpc_url: network.grpc_url@ })
        } else {
            Err(RouteFailure::BadConfiguration)
        }
    }
}

/// The table of connections after one to `namespace` was opened: as before
/// where one stood already, else with `namespace` in a new slot at the end.
pub open spec fn with_connection(connections: Seq<Seq<char>>, namespace: Seq<char>) -> Seq<
    Seq<char>,
> {
    if connections.contains(namespace) {
        connections
    } else {
        connections.push(namespace)
    }
}

/// Whether `error` is the error for the lack of a route to `namespace`, for
/// the reason `why`.
pub open spec fn route_error(
    error: DidCheqdError,
    why: RouteFailure,
    namespace: Seq<char>,
) -> bool {
    match why {
        RouteFailure::NetworkNotSupported => error matches DidCheqdError::NetworkNotSupported(d)
            && d@ == namespace,
        RouteFailure::BadConfiguration => error matches DidCheqdError::BadConfiguration(d) && d@
            == "Failed to parse GRPC url"@,
    }
}

/// Whether `outcome` is the route that `expected` says, or the error that it
/// says.
pub open spec fn leads(
    outcome: DidCheqdResult<Route>,
    expected: Result<RouteText, RouteFailure>,
    namespace: Seq<char>,
) -> bool {
    match expected {
        Ok(route) => outcome matches Ok(r) && r@ == route,
        Err(why) => outcome matches Err(error) && route_error(error, why, namespace),
    }
}

/// Whether `outcome` is the plan to send `request` by the route that
/// `expected` says, or the error that it says.
pub open spec fn plans(
    outcome: DidCheqdResult<Plan>,
    expected: Result<RouteText, RouteFailure>,
    request: RequestText,
    namespace: Seq<char>,
) -> bool {
    match expected {
        Ok(route) => outcome matches Ok(plan) && plan.route@ == route && plan.request@ == request,
        Err(why) => outcome matches Err(error) && route_error(error, why, namespace),
    }
}

/// The query for the DID document of `did`: for the version asked for, or
/// for the latest where none is.
pub open spec fn did_doc_request(did: Seq<char>, version: Option<Seq<char>>) -> RequestText {
    match version {
        Some(version) => RequestText::DidDocVersion { id: did, version },
        None => RequestText::DidDoc { id: did },
    }
}

/// The query with which the lookup of `selection` in `collection_id`
/// begins: for the resource itself where its identifier is given, else for
/// the listing of the collection.
pub open spec fn first_request(selection: Selection, collection_id: Seq<char>) -> RequestText {
    match selection {
        Selection::ExactId(id) => RequestText::Resource { collection_id, id },
        Selection::NameTypeTime { .. } => RequestText::CollectionResources { collection_id },
    }
}

/// The words that say which revision was looked for and not found.
pub open spec fn not_found_detail(
    network: Seq<char>,
    collection_id: Seq<char>,
    name: Seq<char>,
    rtyp: Seq<char>,
    time: Timestamp,
) -> Seq<char> {
    "network: "@ + network + ", collection: "@ + collection_id + ", name: "@ + name + ", type: "@
        + rtyp + ", time: "@ + decimal(time.seconds as int) + " s "@ + decimal(time.nanos as int)
        + " ns"@
}

/// Whether `c` is white space: one of the characters to which Unicode gives
/// the property `White_Space`.
pub open spec fn is_white_space(c: char) -> bool {
    let code = c as u32;
    ||| 0x0009 <= code <= 0x000D
    ||| code == 0x0020
    ||| code == 0x0085
    ||| code == 0x00A0
    ||| code == 0x1680
    ||| 0x2000 <= code <= 0x200A
    ||| code == 0x2028
    ||| code == 0x2029
    ||| code == 0x202F
    ||| code == 0x205F
    ||| code == 0x3000
}

/// How many characters of white space `text` begins with.
pub open spec fn white_start(text: Seq<char>) -> int
    decreases text.len(),
{
    if text.len() > 0 && is_white_space(text[0]) {
        1 + white_start(text.drop_first())
    } else {
        0
    }
}

/// How many characters of white space `text` ends with.
pub open spec fn white_end(text: Seq<char>) -> int
    decreases text.len(),
{
    if text.len() > 0 && is_white_space(text.last()) {
        1 + white_end(text.drop_last())
    } else {
        0
    }
}

/// What is left of a text when the white space at its two ends is taken off.
pub open spec fn trimmed_text(text: Seq<char>) -> Seq<char> {
    let rest = text.skip(white_start(text));
    rest.take(rest.len() - white_end(rest))
}

/// Whether `text` is empty or white space only.
pub open spec fn is_blank(text: Seq<char>) -> bool {
    forall|i: int| 0 <= i < text.len() ==> is_white_space(#[trigger] text[i])
}

/// The white space that a text begins with does not go beyond the text, and
/// the character after it, if there is one, is no white space. A text that is
/// all white space begins with all of it.
pub proof fn lemma_white_start(text: Seq<char>)
    ensures
        0 <= white_start(text) <= text.len(),
        white_start(text) < text.len() ==> !is_white_space(text[white_start(text)]),
        white_start(text) == text.len() <==> is_blank(text),
    decreases text.len(),
{
    if text.len() > 0 && is_white_space(text[0]) {
        let rest = text.drop_first();
        lemma_white_start(rest);
        if white_start(rest) < rest.len() {
            assert(text[white_start(text)] == rest[white_start(rest)]);
        }
        if is_blank(rest) {
            assert forall|i: int| 0 <= i < text.len() implies is_white_space(
                #[trigger] text[i],
            ) by {
                if i > 0 {
                    assert(text[i] == rest[i - 1]);
                }
            }
        }
        if is_blank(text) {
            assert forall|i: int| 0 <= i < rest.len() implies is_white_space(
                #[trigger] rest[i],
            ) by {
                assert(rest[i] == text[i + 1]);
            }
        }
    }
}

/// The white space that a text ends with does not go beyond the text; it is
/// less than the text where the text begins with another character.
pub proof fn lemma_white_end(text: Seq<char>)
    ensures
        0 <= white_end(text) <= text.len(),
        text.len() > 0 && !is_white_space(text[0]) ==> white_end(text) < text.len(),
    decreases text.len(),
{
    if text.len() > 0 && is_white_space(text.last()) {
        let rest = text.drop_last();
        lemma_white_end(rest);
        if !is_white_space(text[0]) {
            assert(rest.len() > 0);
            assert(rest[0] == text[0]);
        }
    }
}

/// Nothing is left of a text when its white space is taken off just where
/// the text is empty or white space only.
pub proof fn lemma_nothing_left_of_blank(text: Seq<char>)
    ensures
        trimmed_text(text).len() == 0 <==> is_blank(text),
{
    lemma_white_start(text);
    let rest = text.skip(white_start(text));
    lemma_white_end(rest);
    if white_start(text) < text.len() {
        assert(rest[0] == text[white_start(text)]);
    }
}

/// The media type that a resource is handed out with: the recorded one,
/// unless nothing is left of it without its white space, that is unless it
/// is empty or white space only.
pub open spec fn media_type_of(recorded: Seq<char>) -> Option<Seq<char>> {
    if trimmed_text(recorded).len() == 0 {
        None
    } else {
        Some(recorded)
    }
}

/// The first step of the lookup of a resource, with what the steps after it
/// need.
#[derive(Debug, PartialEq, Eq)]
pub struct ResourcePlan {
    /// What is to be sent first.
    pub plan: Plan,
    /// Which resource is looked for.
    pub selector: ResourceSelector,
    /// The namespace of the network that is asked.
    pub network: String,
    /// The collection that holds the resource.
    pub collection_id: String,
}

/// Once a connection to a namespace was opened, the route to it is that
/// connection: no second one is asked for. The connections to other
/// namespaces stay in their slots.
pub proof fn lemma_opened_connection_is_reused(
    networks: Seq<NetworkConfiguration>,
    connections: Seq<Seq<char>>,
    namespace: Seq<char>,
    other: Seq<char>,
)
    ensures
        route_of(networks, with_connection(connections, namespace), namespace) matches Ok(
            RouteText::Cached { slot },
        ) && slot == position(connections, namespace),
        connections.contains(other) ==> route_of(
            networks,
            with_connection(connections, namespace),
            other,
        ) == route_of(networks, connections, other),
{
    let after = with_connection(connections, namespace);
    lemma_position(connections, namespace);
    if connections.contains(namespace) {
    } else {
        assert(after[connections.len() as int] == namespace);
        lemma_position_unique(after, namespace, connections.len() as int);
    }
    if connections.contains(other) {
        lemma_position(connections, other);
        let p = position(connections, other);
        assert(after[p] == other);
        lemma_position_unique(after, other, p);
    }
}

/// No route leads to a namespace that is neither configured nor connected.
pub proof fn lemma_unconfigured_has_no_route(
    networks: Seq<NetworkConfiguration>,
    connections: Seq<Seq<char>>,
    namespace: Seq<char>,
)
    requires
        !is_configured(networks, namespace),
        forall|i: int|
            0 <= i < connections.len() ==> is_configured(networks, #[trigger] connections[i]),
    ensures
        route_of(networks, connections, namespace) == Err::<RouteText, RouteFailure>(
            RouteFailure::NetworkNotSupported,
        ),
{
    if connections.contains(namespace) {
        let i = connections.index_of(namespace);
        assert(is_configured(networks, connections[i]));
    }
}

/// The route for a network that no connection stands for, where it is known
/// whether the URL of its node reads as a URI.
pub fn connect_route(network: &NetworkConfiguration, url_is_uri: bool) -> (outcome: DidCheqdResult<
    Route,
>)
    ensures
        url_is_uri ==> (outcome matches Ok(Route::Connect { namespace, grpc_url }) && namespace@
            == network.namespace@ && grpc_url@ == network.grpc_url@),
        !url_is_uri ==> (outcome matches Err(DidCheqdError::BadConfiguration(d)) && d@
            == "Failed to parse GRPC url"@),
{
    if url_is_uri {
        Ok(
            Route::Connect {
                namespace: network.namespace.clone(),
                grpc_url: network.grpc_url.clone(),
            },
        )
    } else {
        Err(DidCheqdError::BadConfiguration(String::from_str("Failed to parse GRPC url")))
    }
}

/// The resolver of `did:cheqd` identifiers.
pub struct DidCheqdResolver {
    networks: Vec<NetworkConfiguration>,
    /// The namespaces to which a connection stands. The place of a namespace
    /// is the slot of its connection.
    connected: Vec<String>,
}

/// The texts of `names`, in their order.
pub open spec fn texts_of(names: Seq<String>) -> Seq<Seq<char>> {
    Seq::new(names.len(), |i: int| names[i]@)
}

impl DidCheqdResolver {
    /// No namespace has two connections, and every connection is to a
    /// configured network.
    #[verifier::type_invariant]
    spec fn connections_are_sound(self) -> bool {
        &&& texts_of(self.connected@).no_duplicates()
        &&& forall|i: int|
            0 <= i < self.connected@.len() ==> is_configured(
                self.networks@,
                #[trigger] texts_of(self.connected@)[i],
            )
    }

    /// The networks that the resolver was configured with.
    pub closed spec fn networks(&self) -> Seq<NetworkConfiguration> {
        self.networks@
    }

    /// The namespaces to which a connection stands, by slot.
    pub closed spec fn connections(&self) -> Seq<Seq<char>> {
        texts_of(self.connected@)
    }

    /// A resolver for the networks of `configuration`, with no connection yet.
    pub fn new(configuration: DidCheqdResolverConfiguration) -> (resolver: Self)
        ensures
            resolver.networks() == configuration.networks@,
            resolver.connections() == Seq::<Seq<char>>::empty(),
    {
        let resolver = DidCheqdResolver { networks: configuration.networks, connected: Vec::new() };
        assert(resolver.connections() =~= Seq::<Seq<char>>::empty());
        resolver
    }

    /// The slot of the connection to `network`, where one stands.
    pub fn cached_slot(&self, network: &str) -> (slot: Option<usize>)
        ensures
            slot is Some <==> self.connections().contains(network@),
            slot matches Some(s) ==> s == position(self.connections(), network@),
    {
        let mut i: usize = 0;
        while i < self.connected.len()
            invariant
                i <= self.connected.len(),
                forall|j: int| 0 <= j < i ==> texts_of(self.connected@)[j] != network@,
            decreases self.connected.len() - i,
        {
            if str_eq(self.connected[i].as_str(), network) {
                proof {
                    assert(texts_of(self.connected@)[i as int] == network@);
                    lemma_position_unique(self.connections(), network@, i as int);
                    lemma_position(self.connections(), network@);
                }
                return Some(i);
            }
            i += 1;
        }
        proof {
            lemma_position_unique(self.connections(), network@, i as int);
            lemma_position(self.connections(), network@);
        }
        None
    }

    /// The first network that is configured for `network`, where there is one.
    pub fn network_configuration(&self, network: &str) -> (found: Option<&NetworkConfiguration>)
        ensures
            found is Some <==> is_configured(self.networks(), network@),
            found matches Some(n) ==> *n == self.networks()[position(
                namespaces_of(self.networks()),
                network@,
            )],
    {
        let ghost names = namespaces_of(self.networks@);
        let mut i: usize = 0;
        while i < self.networks.len()
            invariant
                i <= self.networks.len(),
                names == namespaces_of(self.networks@),
                forall|j: int| 0 <= j < i ==> names[j] != network@,
            decreases self.networks.len() - i,
        {
            if str_eq(self.networks[i].namespace.as_str(), network) {
                proof {
                    assert(names[i as int] == network@);
                    lemma_position_unique(names, network@, i as int);
                    lemma_position(names, network@);
                }
                return Some(&self.networks[i]);
            }
            i += 1;
        }
        proof {
            lemma_position_unique(names, network@, i as int);
            lemma_position(names, network@);
        }
        None
    }

    /// The route to the node of `network`: over the connection that stands,
    /// or over a new one to the configured node.
    ///
    /// A namespace for which no network is configured has no route: the
    /// error is `NetworkNotSupported`, whatever connections stand.
    pub fn client_for_network(&self, network: &str) -> (outcome: DidCheqdResult<Route>)
        ensures
            leads(outcome, route_of(self.networks(), self.connections(), network@), network@),
            !is_configured(self.networks(), network@) ==> outcome matches Err(
                DidCheqdError::NetworkNotSupported(_),
            ),
    {
        proof {
            use_type_invariant(self);
            if !is_configured(self.networks(), network@) {
                lemma_unconfigured_has_no_route(self.networks(), self.connections(), network@);
            }
        }
        if let Some(slot) = self.cached_slot(network) {
            return Ok(Route::Cached { slot });
        }
        match self.network_configuration(network) {
            None => Err(DidCheqdError::NetworkNotSupported(String::from_str(network))),
            Some(configuration) => {
                proof {
                    let names = namespaces_of(self.networks());
                    lemma_position(names, network@);
                    assert(names[position(names, network@)] == network@);
                }
                let url_is_uri = endpoint_uri_parses(configuration.grpc_url.as_str());
                connect_route(configuration, url_is_uri)
            },
        }
    }

    /// Whether `after` is `before` with a connection to `network` recorded,
    /// and `slot` what that gave: the slot of the connection, which from then
    /// on is the route to `network`; or, for a namespace without a configured
    /// network, `NetworkNotSupported` and nothing recorded.
    pub open spec fn records_connection(
        before: &DidCheqdResolver,
        after: &DidCheqdResolver,
        network: Seq<char>,
        slot: DidCheqdResult<usize>,
    ) -> bool {
        &&& after.networks() == before.networks()
        &&& is_configured(before.networks(), network) ==> {
            &&& slot matches Ok(s) && s == position(before.connections(), network)
            &&& after.connections() == with_connection(before.connections(), network)
            &&& route_of(after.networks(), after.connections(), network) == Ok::<
                RouteText,
                RouteFailure,
            >(RouteText::Cached { slot: slot->Ok_0 as int })
        }
        &&& !is_configured(before.networks(), network) ==> {
            &&& slot matches Err(DidCheqdError::NetworkNotSupported(d)) && d@ == network
            &&& after.connections() == before.connections()
        }
    }

    /// Records that a connection to `network` was opened, and gives its slot:
    /// the slot of the connection that stood for it before, where one did,
    /// else a new slot. From then on the route to `network` is that slot. A
    /// namespace without a configured network gets none.
    pub fn connection_opened(&mut self, network: &str) -> (slot: DidCheqdResult<usize>)
        ensures
            Self::records_connection(old(self), final(self), network@, slot),
    {
        proof {
            use_type_invariant(&*self);
            lemma_opened_connection_is_reused(
                self.networks(),
                self.connections(),
                network@,
                network@,
            );
        }
        if self.network_configuration(network).is_none() {
            return Err(DidCheqdError::NetworkNotSupported(String::from_str(network)));
        }
        if let Some(slot) = self.cached_slot(network) {
            return Ok(slot);
        }
        let mut taken = DidCheqdResolver { networks: Vec::new(), connected: Vec::new() };
        std::mem::swap(self, &mut taken);
        let DidCheqdResolver { networks, mut connected } = taken;
        let ghost before = texts_of(connected@);
        let slot = connected.len();
        connected.push(String::from_str(network));
        proof {
            let after = texts_of(connected@);
            assert(after =~= before.push(network@));
            lemma_position(before, network@);
            assert forall|i: int, j: int| 0 <= i < after.len() && 0 <= j < after.len() && i
                != j implies after[i] != after[j] by {
                if i < before.len() && j < before.len() {
                    assert(before[i] != before[j]);
                } else if i < before.len() {
                    assert(before.contains(before[i]));
                } else if j < before.len() {
                    assert(before.contains(before[j]));
                }
            }
            assert forall|i: int| 0 <= i < after.len() implies is_configured(
                networks@,
                #[trigger] after[i],
            ) by {
                if i < before.len() {
                    assert(after[i] == before[i]);
                }
            }
        }
        *self = DidCheqdResolver { networks, connected };
        Ok(slot)
    }

    /// The plan for the resolution of a DID document: the query for the
    /// version that `parsed_did` asks for, or for the latest where it asks for
    /// none, by the route to the network of its namespace.
    ///
    /// For a namespace without a configured network there is no plan, so
    /// nothing is sent: the error is `NetworkNotSupported`.
    pub fn query_did_doc_by_str(&self, _did_str: &str, parsed_did: DidCheqdParsed) -> (outcome:
        DidCheqdResult<Plan>)
        ensures
            plans(
                outcome,
                route_of(self.networks(), self.connections(), parsed_did.namespace@),
                did_doc_request(parsed_did.did@, text_of(parsed_did.version)),
                parsed_did.namespace@,
            ),
            !is_configured(self.networks(), parsed_did.namespace@) ==> outcome matches Err(
                DidCheqdError::NetworkNotSupported(_),
            ),
    {
        let route = match self.client_for_network(parsed_did.namespace.as_str()) {
            Ok(route) => route,
            Err(error) => {
                return Err(error);
            },
        };
        let request = match parsed_did.version {
            Some(version) => Request::DidDocVersion { id: parsed_did.did, version },
            None => Request::DidDoc { id: parsed_did.did },
        };
        Ok(Plan { route, request })
    }

    /// The plan for the lookup of the resource that `parsed_did` asks for,
    /// where `now` is the present time.
    ///
    /// What the query selects is settled first: a query that selects nothing
    /// is refused with `InvalidDidUrl`, whatever the network.
    pub fn query_resource_as_of(
        &self,
        did_url: &str,
        parsed_did: DidCheqdParsed,
        now: Timestamp,
    ) -> (outcome: DidCheqdResult<ResourcePlan>)
        ensures
            resource_plan_is(
                outcome,
                selection(map_of(parsed_did.query), time_of(map_of(parsed_did.query)), now),
                route_of(self.networks(), self.connections(), parsed_did.namespace@),
                parsed_did.namespace@,
                parsed_did.id@,
                did_url@,
            ),
    {
        let selector = match ResourceSelector::from_query_at(&parsed_did.query, did_url, now) {
            Ok(selector) => selector,
            Err(error) => {
                return Err(error);
            },
        };
        self.plan_for_selector(selector, parsed_did.namespace, parsed_did.id)
    }

    /// The plan for the lookup of the resource that `parsed_did` asks for.
    /// Where its query names no time, the time of the call stands in.
    pub fn query_resource_by_str(&self, did_url: &str, parsed_did: DidCheqdParsed) -> (outcome:
        DidCheqdResult<ResourcePlan>)
        ensures
            exists|now: Timestamp|
                resource_plan_is(
                    outcome,
                    #[trigger] selection(
                        map_of(parsed_did.query),
                        time_of(map_of(parsed_did.query)),
                        now,
                    ),
                    route_of(self.networks(), self.connections(), parsed_did.namespace@),
                    parsed_did.namespace@,
                    parsed_did.id@,
                    did_url@,
                ),
    {
        let selector = match ResourceSelector::from_query(&parsed_did.query, did_url) {
            Ok(selector) => selector,
            Err(error) => {
                return Err(error);
            },
        };
        self.plan_for_selector(selector, parsed_did.namespace, parsed_did.id)
    }

    /// The plan for the lookup of what `selector` selects in the collection
    /// `collection_id` of `network`.
    pub fn plan_for_selector(
        &self,
        selector: ResourceSelector,
        network: String,
        collection_id: String,
    ) -> (outcome: DidCheqdResult<ResourcePlan>)
        ensures
            resource_plan_is(
                outcome,
                Ok(selector@),
                route_of(self.networks(), self.connections(), network@),
                network@,
                collection_id@,
                Seq::empty(),
            ),
    {
        let route = match self.client_for_network(network.as_str()) {
            Ok(route) => route,
            Err(error) => {
                return Err(error);
            },
        };
        let request = match &selector {
            ResourceSelector::ExactId(id) => Request::Resource {
                collection_id: collection_id.clone(),
                id: id.clone(),
            },
            ResourceSelector::NameTypeTime { .. } => Request::CollectionResources {
                collection_id: collection_id.clone(),
            },
        };
        Ok(ResourcePlan { plan: Plan { route, request }, selector, network, collection_id })
    }

    /// The plan for fetching the resource `resource_id` of the collection
    /// `did_id` from `network`.
    pub fn resolve_resource_by_id(
        &self,
        did_id: &str,
        resource_id: &str,
        network: &str,
    ) -> (outcome: DidCheqdResult<Plan>)
        ensures
            plans(
                outcome,
                route_of(self.networks(), self.connections(), network@),
                RequestText::Resource { collection_id: did_id@, id: resource_id@ },
                network@,
            ),
    {
        let route = match self.client_for_network(network) {
            Ok(route) => route,
            Err(error) => {
                return Err(error);
            },
        };
        Ok(
            Plan {
                route,
                request: Request::Resource {
                    collection_id: String::from_str(did_id),
                    id: String::from_str(resource_id),
                },
            },
        )
    }

    /// Whether `outcome` is the second step of a lookup by name, type and
    /// time, as it follows from the listing of the collection: the plan for
    /// fetching the revision that the lookup selects; `ResourceNotFound`
    /// where no revision is eligible; `NonSuccessResponse` where the listing
    /// failed.
    pub open spec fn plans_revision(
        &self,
        outcome: DidCheqdResult<Plan>,
        did_id: Seq<char>,
        name: Seq<char>,
        rtyp: Seq<char>,
        time: Timestamp,
        network: Seq<char>,
        listing: Result<Vec<CheqdResourceMetadata>, String>,
    ) -> bool {
        match listing {
            Err(cause) => outcome matches Err(DidCheqdError::NonSuccessResponse(d)) && d@
                == cause@,
            Ok(resources) => {
                &&& forall|i: int|
                    is_selected(resources@, name, rtyp, time, i) ==> plans(
                        outcome,
                        route_of(self.networks(), self.connections(), network),
                        RequestText::Resource {
                            collection_id: did_id,
                            id: (#[trigger] resources@[i]).id@,
                        },
                        network,
                    )
                &&& (forall|j: int|
                    0 <= j < resources.len() ==> !eligible(
                        #[trigger] resources@[j],
                        name,
                        rtyp,
                        time,
                    )) ==> (outcome matches Err(DidCheqdError::ResourceNotFound(d)) && d@
                    == not_found_detail(network, did_id, name, rtyp, time))
            },
        }
    }

    /// The second step of a lookup by name, type and time: from the listing
    /// of the collection `did_id` to the plan for fetching the revision that
    /// the lookup selects.
    ///
    /// `listing` is the answer to the query for the collection's resources,
    /// or the words of its failure. Selected is the latest revision of the
    /// name and type that was created before the instant `time`; where there
    /// is none, the error is `ResourceNotFound`.
    pub fn resolve_resource_by_name_type_and_time(
        &self,
        did_id: &str,
        name: &str,
        rtyp: &str,
        time: Timestamp,
        network: &str,
        listing: Result<Vec<CheqdResourceMetadata>, String>,
    ) -> (outcome: DidCheqdResult<Plan>)
        ensures
            self.plans_revision(outcome, did_id@, name@, rtyp@, time, network@, listing),
    {
        let resources = match listing {
            Ok(resources) => resources,
            Err(cause) => {
                return Err(DidCheqdError::NonSuccessResponse(cause));
            },
        };
        match select_revision(&resources, name, rtyp, time) {
            Some(meta) => {
                proof {
                    let chosen = choose|i: int|
                        is_selected(resources@, name@, rtyp@, time, i) && *meta
                            == #[trigger] resources@[i];
                    assert forall|i: int|
                        is_selected(resources@, name@, rtyp@, time, i) implies (
                    #[trigger] resources@[i]).id@ == meta.id@ by {
                        lemma_selection_is_unique(
                            resources@,
                            name@,
                            rtyp@,
                            time,
                            i,
                            chosen,
                        );
                    }
                }
                self.resolve_resource_by_id(did_id, meta.id.as_str(), network)
            },
            None => {
                let mut detail = String::from_str("network: ");
                detail.append(network);
                detail.append(", collection: ");
                detail.append(did_id);
                detail.append(", name: ");
                detail.append(name);
                detail.append(", type: ");
                detail.append(rtyp);
                detail.append(", time: ");
                detail.append(decimal_string(time.seconds).as_str());
                detail.append(" s ");
                detail.append(decimal_string(time.nanos as i64).as_str());
                detail.append(" ns");
                Err(DidCheqdError::ResourceNotFound(detail))
            },
        }
    }
}

/// Whether `outcome` is what the lookup of a resource owes: for a query that
/// selects nothing the error of that, else the first step by the route to
/// the network, or the error for the lack of a route.
pub open spec fn resource_plan_is(
    outcome: DidCheqdResult<ResourcePlan>,
    selected: Result<Selection, SelectionFailure>,
    route: Result<RouteText, RouteFailure>,
    namespace: Seq<char>,
    collection_id: Seq<char>,
    did_url: Seq<char>,
) -> bool {
    match selected {
        Err(why) => outcome matches Err(error) && selection_error(error, why, did_url),
        Ok(selection) => match route {
            Err(why) => outcome matches Err(error) && route_error(error, why, namespace),
            Ok(route) => {
                &&& outcome matches Ok(first)
                &&& first.selector@ == selection
                &&& first.network@ == namespace
                &&& first.collection_id@ == collection_id
                &&& first.plan.route@ == route
                &&& first.plan.request@ == first_request(selection, collection_id)
            },
        },
    }
}

/// Whether `outcome` is what the answer to a query for a DID document
/// holds: the document with what is recorded about it; `NonSuccessResponse`
/// where the query failed; `InvalidResponse` where the answer lacks its
/// value or the value its document.
pub open spec fn reads_did_doc(
    outcome: DidCheqdResult<(CheqdDidDoc, Option<CheqdDidDocMetadata>)>,
    versioned: bool,
    answer: Result<Option<DidDocWithMetadata>, String>,
) -> bool {
    match answer {
        Err(cause) => outcome matches Err(DidCheqdError::NonSuccessResponse(d)) && d@ == cause@,
        Ok(None) => outcome matches Err(DidCheqdError::InvalidResponse(d)) && d@ == (if versioned {
            "DIDDoc query did version not return a value"@
        } else {
            "DIDDoc query did not return a value"@
        }),
        Ok(Some(value)) => match value.did_doc {
            None => outcome matches Err(DidCheqdError::InvalidResponse(d)) && d@ == (
            if versioned {
                "DIDDoc query did version not return a DIDDoc"@
            } else {
                "DIDDoc query did not return a DIDDoc"@
            }),
            Some(did_doc) => outcome == Ok::<
                (CheqdDidDoc, Option<CheqdDidDocMetadata>),
                DidCheqdError,
            >((did_doc, value.metadata)),
        },
    }
}

/// What the answer to a query for a DID document holds: the document and
/// what is recorded about it.
///
/// `answer` is the value that the node answered with, or the words of the
/// failure of the query. `versioned` says whether a version was asked for.
pub fn read_did_doc(
    versioned: bool,
    answer: Result<Option<DidDocWithMetadata>, String>,
) -> (outcome: DidCheqdResult<(CheqdDidDoc, Option<CheqdDidDocMetadata>)>)
    ensures
        reads_did_doc(outcome, versioned, answer),
{
    let value = match answer {
        Ok(value) => value,
        Err(cause) => {
            return Err(DidCheqdError::NonSuccessResponse(cause));
        },
    };
    let value = match value {
        Some(value) => value,
        None => {
            return Err(
                DidCheqdError::InvalidResponse(
                    String::from_str(
                        if versioned {
                            "DIDDoc query did version not return a value"
                        } else {
                            "DIDDoc query did not return a value"
                        },
                    ),
                ),
            );
        },
    };
    match value.did_doc {
        Some(did_doc) => Ok((did_doc, value.metadata)),
        None => Err(
            DidCheqdError::InvalidResponse(
                String::from_str(
                    if versioned {
                        "DIDDoc query did version not return a DIDDoc"
                    } else {
                        "DIDDoc query did not return a DIDDoc"
                    },
                ),
            ),
        ),
    }
}

/// Whether `outcome` is what the answer to a query for a resource holds:
/// the payload with the media type unless that is blank;
/// `NonSuccessResponse` where the query failed; `InvalidResponse` where the
/// answer lacks its value, or the value its resource or what is recorded
/// about it.
pub open spec fn reads_resource(
    outcome: DidCheqdResult<(Vec<u8>, Option<String>)>,
    answer: Result<Option<ResourceWithMetadata>, String>,
) -> bool {
    match answer {
        Err(cause) => outcome matches Err(DidCheqdError::NonSuccessResponse(d)) && d@ == cause@,
        Ok(None) => outcome matches Err(DidCheqdError::InvalidResponse(d)) && d@
            == "Resource query did not return a value"@,
        Ok(Some(value)) => match (value.resource, value.metadata) {
            (None, _) => outcome matches Err(DidCheqdError::InvalidResponse(d)) && d@
                == "Resource query did not return a resource"@,
            (Some(_), None) => outcome matches Err(DidCheqdError::InvalidResponse(d)) && d@
                == "Resource query did not return metadata"@,
            (Some(resource), Some(metadata)) => {
                &&& outcome matches Ok((data, media_type))
                &&& data == resource.data
                &&& text_of(media_type) == media_type_of(metadata.media_type@)
            },
        },
    }
}

/// What the answer to a query for a resource holds: its payload, and its
/// media type unless that is blank.
///
/// `answer` is the value that the node answered with, or the words of the
/// failure of the query.
pub fn read_resource(
    answer: Result<Option<ResourceWithMetadata>, String>,
) -> (outcome: DidCheqdResult<(Vec<u8>, Option<String>)>)
    ensures
        reads_resource(outcome, answer),
{
    let value = match answer {
        Ok(value) => value,
        Err(cause) => {
            return Err(DidCheqdError::NonSuccessResponse(cause));
        },
    };
    let value = match value {
        Some(value) => value,
        None => {
            return Err(
                DidCheqdError::InvalidResponse(
                    String::from_str("Resource query did not return a value"),
                ),
            );
        },
    };
    let resource = match value.resource {
        Some(resource) => resource,
        None => {
            return Err(
                DidCheqdError::InvalidResponse(
                    String::from_str("Resource query did not return a resource"),
                ),
            );
        },
    };
    let metadata = match value.metadata {
        Some(metadata) => metadata,
        None => {
            return Err(
                DidCheqdError::InvalidResponse(
                    String::from_str("Resource query did not return metadata"),
                ),
            );
        },
    };
    let media_type = media_type_from(metadata.media_type);
    Ok((resource.data, media_type))
}

/// The media type to hand out for the recorded one, where it is known
/// whether the recorded one is blank.
pub fn media_type_unless(recorded: String, blank: bool) -> (media_type: Option<String>)
    ensures
        blank ==> media_type is None,
        !blank ==> media_type == Some(recorded),
{
    if blank {
        None
    } else {
        Some(recorded)
    }
}

/// The media type to hand out for the recorded one.
fn media_type_from(recorded: String) -> (media_type: Option<String>)
    ensures
        text_of(media_type) == media_type_of(recorded@),
{
    let blank = trimmed(recorded.as_str()).is_empty();
    media_type_unless(recorded, blank)
}

/// `str::trim`.
///
/// Trusted: what comes back is the text without the white space at its two
/// ends, where white space is what Unicode gives the property `White_Space`.
#[verifier::external_body]
fn trimmed(text: &str) -> (rest: &str)
    ensures
        rest@ == trimmed_text(text@),
{
    text.trim()
}

/// `tonic::transport::Endpoint::from_shared`, asked only whether it succeeds.
///
/// Trusted: whether the text is taken as a URI depends on the text alone; it
/// is what `is_endpoint_uri` names.
#[verifier::external_body]
fn endpoint_uri_parses(url: &str) -> (parses: bool)
    ensures
        parses == is_endpoint_uri(url@),
{
    tonic::transport::Endpoint::from_shared(url.to_owned()).is_ok()
}

} // verus!
