use did_cheqd::error::DidCheqdError;
use did_cheqd::proto::{
    CheqdDidDoc, CheqdResourceMetadata, DidDocWithMetadata, Resource, ResourceWithMetadata,
    Timestamp,
};
use did_cheqd::resolution::parser::DidCheqdParser;
use did_cheqd::resolution::resolver::{
    DidCheqdResolver, DidCheqdResolverConfiguration, NetworkConfiguration, Plan, Request, Route,
};
use did_cheqd::resolution::session::{
    start, Action, Answer, Event, Goal, Pending, Resolved, Step,
};

fn doc(id: &str) -> CheqdDidDoc {
    CheqdDidDoc {
        context: vec![],
        id: id.to_string(),
        controller: vec![],
        verification_method: vec![],
        authentication: vec![],
        assertion_method: vec![],
        capability_invocation: vec![],
        capability_delegation: vec![],
        key_agreement: vec![],
        service: vec![],
        also_known_as: vec![],
    }
}

fn revision(id: &str, seconds: i64) -> CheqdResourceMetadata {
    CheqdResourceMetadata {
        collection_id: "abc".to_string(),
        id: id.to_string(),
        name: "n".to_string(),
        version: String::new(),
        resource_type: "t".to_string(),
        media_type: "text/plain".to_string(),
        created: Some(Timestamp { seconds, nanos: 0 }),
        checksum: String::new(),
        previous_version_id: String::new(),
        next_version_id: String::new(),
    }
}

fn resource(data: &[u8], media_type: &str) -> ResourceWithMetadata {
    let mut metadata = revision("r", 1);
    metadata.media_type = media_type.to_string();
    ResourceWithMetadata { resource: Some(Resource { data: data.to_vec() }), metadata: Some(metadata) }
}

/// A node that answers from what it was given, and counts what it was asked.
struct Node {
    document: Option<DidDocWithMetadata>,
    listing: Vec<CheqdResourceMetadata>,
    connects: usize,
    sent: Vec<Request>,
    fail_connect: bool,
    fail_query: bool,
}

impl Node {
    fn new() -> Self {
        Node {
            document: None,
            listing: vec![],
            connects: 0,
            sent: vec![],
            fail_connect: false,
            fail_query: false,
        }
    }

    fn perform(&mut self, action: Action) -> Event {
        match action {
            Action::Connect { .. } => {
                self.connects += 1;
                if self.fail_connect {
                    Event::ConnectFailed("connection refused".to_string())
                } else {
                    Event::Connected
                }
            }
            Action::Send { request, .. } => {
                let event = if self.fail_query {
                    Event::QueryFailed("status: Unavailable".to_string())
                } else {
                    match &request {
                        Request::DidDoc { .. } | Request::DidDocVersion { .. } => {
                            Event::Answered(Answer::DidDoc(self.document.take()))
                        }
                        Request::Resource { id, .. } => Event::Answered(Answer::Resource(Some(
                            resource(id.as_bytes(), "text/plain"),
                        ))),
                        Request::CollectionResources { .. } => Event::Answered(
                            Answer::CollectionResources(std::mem::take(&mut self.listing)),
                        ),
                    }
                };
                self.sent.push(request);
                event
            }
        }
    }
}

fn run(
    resolver: &mut DidCheqdResolver,
    node: &mut Node,
    first: Result<Step, DidCheqdError>,
) -> Result<Resolved, DidCheqdError> {
    let mut step = first?;
    loop {
        match step {
            Step::Finished(resolved) => return Ok(resolved),
            Step::Continue { action, pending } => {
                let event = node.perform(action);
                step = resolver.advance(pending, event)?;
            }
        }
    }
}

fn resolve_document(
    resolver: &mut DidCheqdResolver,
    node: &mut Node,
    did: &str,
) -> Result<Resolved, DidCheqdError> {
    let first = resolver.begin_document(did, DidCheqdParser::parse(did).unwrap());
    run(resolver, node, first)
}

fn resolve_resource(
    resolver: &mut DidCheqdResolver,
    node: &mut Node,
    url: &str,
    now: i64,
) -> Result<Resolved, DidCheqdError> {
    let first = resolver.begin_resource_as_of(
        url,
        DidCheqdParser::parse(url).unwrap(),
        Timestamp { seconds: now, nanos: 0 },
    );
    run(resolver, node, first)
}

#[test]
fn document_is_resolved_in_one_query() {
    let mut resolver = DidCheqdResolver::new(Default::default());
    let mut node = Node::new();
    node.document = Some(DidDocWithMetadata { did_doc: Some(doc("did:cheqd:testnet:abc")), metadata: None });
    let resolved = resolve_document(&mut resolver, &mut node, "did:cheqd:testnet:abc").unwrap();
    assert_eq!(resolved, Resolved::Document(doc("did:cheqd:testnet:abc"), None));
    assert_eq!(node.connects, 1);
    assert_eq!(node.sent, vec![Request::DidDoc { id: "did:cheqd:testnet:abc".to_string() }]);
}

#[test]
fn version_of_a_document_is_asked_for() {
    let mut resolver = DidCheqdResolver::new(Default::default());
    let mut node = Node::new();
    node.document = Some(DidDocWithMetadata { did_doc: Some(doc("d")), metadata: None });
    resolve_document(&mut resolver, &mut node, "did:cheqd:testnet:abc/versions/v7").unwrap();
    assert_eq!(
        node.sent,
        vec![Request::DidDocVersion {
            id: "did:cheqd:testnet:abc".to_string(),
            version: "v7".to_string(),
        }]
    );
    assert_eq!(
        resolve_document(&mut resolver, &mut node, "did:cheqd:testnet:abc/versions/v7"),
        Err(DidCheqdError::InvalidResponse(
            "DIDDoc query did version not return a value".to_string()
        ))
    );
}

#[test]
fn second_resolution_reuses_the_connection() {
    let mut resolver = DidCheqdResolver::new(Default::default());
    let mut node = Node::new();
    node.document = Some(DidDocWithMetadata { did_doc: Some(doc("d")), metadata: None });
    resolve_document(&mut resolver, &mut node, "did:cheqd:testnet:abc").unwrap();
    assert_eq!(node.connects, 1);
    node.document = Some(DidDocWithMetadata { did_doc: Some(doc("e")), metadata: None });
    resolve_document(&mut resolver, &mut node, "did:cheqd:testnet:other").unwrap();
    assert_eq!(node.connects, 1);
    assert_eq!(node.sent.len(), 2);
    // another network is connected once, too
    node.document = Some(DidDocWithMetadata { did_doc: Some(doc("f")), metadata: None });
    resolve_document(&mut resolver, &mut node, "did:cheqd:mainnet:abc").unwrap();
    node.document = Some(DidDocWithMetadata { did_doc: Some(doc("g")), metadata: None });
    resolve_document(&mut resolver, &mut node, "did:cheqd:abc").unwrap();
    assert_eq!(node.connects, 2);
    assert_eq!(node.sent.len(), 4);
}

#[test]
fn unconfigured_namespace_is_never_connected_to() {
    let mut resolver = DidCheqdResolver::new(Default::default());
    let mut node = Node::new();
    assert_eq!(
        resolve_document(&mut resolver, &mut node, "did:cheqd:devnet:Ps1ysXP2Ae6GBfxNhNQNKN"),
        Err(DidCheqdError::NetworkNotSupported("devnet".to_string()))
    );
    assert_eq!(
        resolve_resource(&mut resolver, &mut node, "did:cheqd:devnet:abc/resources/r", 0),
        Err(DidCheqdError::NetworkNotSupported("devnet".to_string()))
    );
    assert_eq!(node.connects, 0);
    assert!(node.sent.is_empty());
}

#[test]
fn bad_endpoint_is_never_connected_to() {
    let mut resolver = DidCheqdResolver::new(DidCheqdResolverConfiguration {
        networks: vec![NetworkConfiguration {
            grpc_url: "@baduri://.".into(),
            namespace: "devnet".into(),
        }],
    });
    let mut node = Node::new();
    assert_eq!(
        resolve_document(&mut resolver, &mut node, "did:cheqd:devnet:abc"),
        Err(DidCheqdError::BadConfiguration("Failed to parse GRPC url".to_string()))
    );
    assert_eq!(node.connects, 0);
}

#[test]
fn failed_connection_is_a_transport_error_and_is_not_kept() {
    let mut resolver = DidCheqdResolver::new(Default::default());
    let mut node = Node::new();
    node.fail_connect = true;
    assert_eq!(
        resolve_document(&mut resolver, &mut node, "did:cheqd:testnet:abc"),
        Err(DidCheqdError::TransportError("connection refused".to_string()))
    );
    assert!(node.sent.is_empty());
    node.fail_connect = false;
    node.document = Some(DidDocWithMetadata { did_doc: Some(doc("d")), metadata: None });
    resolve_document(&mut resolver, &mut node, "did:cheqd:testnet:abc").unwrap();
    assert_eq!(node.connects, 2);
}

#[test]
fn failed_query_is_a_non_success_response() {
    let mut resolver = DidCheqdResolver::new(Default::default());
    let mut node = Node::new();
    node.fail_query = true;
    assert_eq!(
        resolve_document(&mut resolver, &mut node, "did:cheqd:testnet:abc"),
        Err(DidCheqdError::NonSuccessResponse("status: Unavailable".to_string()))
    );
    assert_eq!(
        resolve_resource(
            &mut resolver,
            &mut node,
            "did:cheqd:testnet:abc?resourceName=n&resourceType=t",
            100
        ),
        Err(DidCheqdError::NonSuccessResponse("status: Unavailable".to_string()))
    );
    // the query is not tried again
    assert_eq!(node.sent.len(), 2);
}

#[test]
fn resource_by_id_is_fetched_in_one_query() {
    let mut resolver = DidCheqdResolver::new(Default::default());
    let mut node = Node::new();
    let resolved =
        resolve_resource(&mut resolver, &mut node, "did:cheqd:testnet:abc/resources/r1", 0)
            .unwrap();
    assert_eq!(resolved, Resolved::Resource(b"r1".to_vec(), Some("text/plain".to_string())));
    assert_eq!(
        node.sent,
        vec![Request::Resource { collection_id: "abc".to_string(), id: "r1".to_string() }]
    );
}

#[test]
fn resource_by_name_is_listed_then_fetched() {
    let mut resolver = DidCheqdResolver::new(Default::default());
    let mut node = Node::new();
    node.listing = vec![revision("at20", 20), revision("at15", 15), revision("at10", 10), revision("at5", 5)];
    let resolved = resolve_resource(
        &mut resolver,
        &mut node,
        "did:cheqd:testnet:abc?resourceName=n&resourceType=t&resourceVersionTime=1970-01-01T00:00:14Z",
        1000,
    )
    .unwrap();
    assert_eq!(resolved, Resolved::Resource(b"at10".to_vec(), Some("text/plain".to_string())));
    assert_eq!(
        node.sent,
        vec![
            Request::CollectionResources { collection_id: "abc".to_string() },
            Request::Resource { collection_id: "abc".to_string(), id: "at10".to_string() },
        ]
    );
    assert_eq!(node.connects, 1);
}

#[test]
fn resource_by_name_as_of_an_instant_within_a_second() {
    let mut resolver = DidCheqdResolver::new(Default::default());
    let mut node = Node::new();
    node.listing = vec![revision("at10", 10), revision("at5", 5)];
    let resolved = resolve_resource(
        &mut resolver,
        &mut node,
        "did:cheqd:testnet:abc?resourceName=n&resourceType=t&resourceVersionTime=1970-01-01T00:00:10.5Z",
        1000,
    )
    .unwrap();
    assert_eq!(resolved, Resolved::Resource(b"at10".to_vec(), Some("text/plain".to_string())));
    node.listing = vec![revision("at10", 10), revision("at5", 5)];
    let resolved = resolve_resource(
        &mut resolver,
        &mut node,
        "did:cheqd:testnet:abc?resourceName=n&resourceType=t&resourceVersionTime=1970-01-01T00:00:10Z",
        1000,
    )
    .unwrap();
    assert_eq!(resolved, Resolved::Resource(b"at5".to_vec(), Some("text/plain".to_string())));
}

#[test]
fn resource_by_name_without_a_time_is_as_of_now() {
    let mut resolver = DidCheqdResolver::new(Default::default());
    let mut node = Node::new();
    node.listing = vec![revision("at20", 20), revision("at5", 5)];
    let resolved = resolve_resource(
        &mut resolver,
        &mut node,
        "did:cheqd:testnet:abc?resourceName=n&resourceType=t",
        20,
    )
    .unwrap();
    assert_eq!(resolved, Resolved::Resource(b"at5".to_vec(), Some("text/plain".to_string())));
}

#[test]
fn resource_by_name_before_every_revision_is_not_found() {
    let mut resolver = DidCheqdResolver::new(Default::default());
    let mut node = Node::new();
    node.listing = vec![revision("at20", 20), revision("at5", 5)];
    assert_eq!(
        resolve_resource(
            &mut resolver,
            &mut node,
            "did:cheqd:testnet:abc?resourceName=n&resourceType=t",
            4
        ),
        Err(DidCheqdError::ResourceNotFound(
            "network: testnet, collection: abc, name: n, type: t, time: 4 s 0 ns".to_string()
        ))
    );
    assert_eq!(node.sent, vec![Request::CollectionResources { collection_id: "abc".to_string() }]);
}

#[test]
fn resource_without_selector_is_refused_before_anything_is_sent() {
    let mut resolver = DidCheqdResolver::new(Default::default());
    let mut node = Node::new();
    for url in [
        "did:cheqd:mainnet:zF7rhDBfUt9d1gJPjx7s1J",
        "did:cheqd:mainnet:zF7rhDBfUt9d1gJPjx7s1j?resourceName=asdf",
        "did:cheqd:mainnet:zF7rhDBfUt9d1gJPjx7s1J?resourceName=asdf&resourceType=fdsa&resourceVersionTime=12341234",
    ] {
        assert!(
            matches!(
                resolve_resource(&mut resolver, &mut node, url, 0),
                Err(DidCheqdError::InvalidDidUrl(_))
            ),
            "{}",
            url
        );
    }
    assert_eq!(node.connects, 0);
    assert!(node.sent.is_empty());
}

#[test]
fn resource_begun_without_a_given_time() {
    let resolver = DidCheqdResolver::new(Default::default());
    let url = "did:cheqd:testnet:abc?resourceName=n&resourceType=t";
    match resolver.begin_resource(url, DidCheqdParser::parse(url).unwrap()) {
        Ok(Step::Continue {
            action: Action::Connect { grpc_url },
            pending: Pending::Connecting { namespace, request, goal: Goal::Revision { before, .. } },
        }) => {
            assert_eq!(grpc_url, "https://grpc.cheqd.network:443");
            assert_eq!(namespace, "testnet");
            assert_eq!(request, Request::CollectionResources { collection_id: "abc".to_string() });
            assert!(before.seconds > 1_704_067_200);
        }
        other => panic!("{:?}", other),
    }
}

#[test]
fn plan_is_set_going_by_its_route() {
    let request = || Request::DidDoc { id: "d".to_string() };
    assert_eq!(
        start(Plan { route: Route::Cached { slot: 3 }, request: request() }, Goal::Resource),
        Step::Continue {
            action: Action::Send { slot: 3, request: request() },
            pending: Pending::Asked { goal: Goal::Resource },
        }
    );
    assert_eq!(
        start(
            Plan {
                route: Route::Connect { namespace: "n".to_string(), grpc_url: "u".to_string() },
                request: request(),
            },
            Goal::Document { versioned: false }
        ),
        Step::Continue {
            action: Action::Connect { grpc_url: "u".to_string() },
            pending: Pending::Connecting {
                namespace: "n".to_string(),
                request: request(),
                goal: Goal::Document { versioned: false },
            },
        }
    );
}

#[test]
fn event_that_does_not_answer_is_refused() {
    let out_of_turn = || {
        Err(DidCheqdError::InvalidResponse(
            "The event does not answer what was asked for".to_string(),
        ))
    };
    let mut resolver = DidCheqdResolver::new(Default::default());
    let asked = |goal: Goal| Pending::Asked { goal };
    assert_eq!(
        resolver.advance(asked(Goal::Resource), Event::Answered(Answer::DidDoc(None))),
        out_of_turn()
    );
    assert_eq!(
        resolver.advance(
            asked(Goal::Document { versioned: false }),
            Event::Answered(Answer::Resource(None))
        ),
        out_of_turn()
    );
    assert_eq!(
        resolver.advance(
            asked(Goal::Document { versioned: false }),
            Event::Answered(Answer::CollectionResources(vec![]))
        ),
        out_of_turn()
    );
    assert_eq!(resolver.advance(asked(Goal::Resource), Event::Connected), out_of_turn());
    assert_eq!(
        resolver.advance(asked(Goal::Resource), Event::ConnectFailed("x".to_string())),
        out_of_turn()
    );
    let connecting = || Pending::Connecting {
        namespace: "testnet".to_string(),
        request: Request::DidDoc { id: "d".to_string() },
        goal: Goal::Document { versioned: false },
    };
    assert_eq!(
        resolver.advance(connecting(), Event::Answered(Answer::DidDoc(None))),
        out_of_turn()
    );
    assert_eq!(resolver.advance(connecting(), Event::QueryFailed("x".to_string())), out_of_turn());
    // none of this recorded a connection
    assert!(resolver.cached_slot("testnet").is_none());
    assert_eq!(
        resolver.advance(connecting(), Event::Connected),
        Ok(Step::Continue {
            action: Action::Send { slot: 0, request: Request::DidDoc { id: "d".to_string() } },
            pending: Pending::Asked { goal: Goal::Document { versioned: false } },
        })
    );
    assert_eq!(resolver.cached_slot("testnet"), Some(0));
}
