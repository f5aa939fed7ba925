//! A resolution, step by step.
//!
//! A resolution is a short exchange between the resolver and whoever drives
//! it. The resolver says what is to be done next, an [`Action`]; the driver
//! does it and reports what came of it, an [`Event`]; and so on until the
//! resolver hands out what was resolved, or an error. Between two steps the
//! driver keeps the [`Pending`] that it was given, and hands it back with the
//! event.
//!
//! A document takes one query. So does a resource that is asked for by its
//! identifier. A resource that is asked for by name, type and time takes two:
//! one for the listing of its collection, and one for the revision that the
//! listing leads to.

use crate::error::{DidCheqdError, DidCheqdResult};
use crate::proto::{
    CheqdDidDoc, CheqdDidDocMetadata, CheqdResourceMetadata, DidDocWithMetadata,
    ResourceWithMetadata, Timestamp,
};
use crate::resolution::parser::{map_of, text_of, DidCheqdParsed};
use crate::resolution::resolver::{
    did_doc_request, is_configured, plans, read_did_doc, read_resource, reads_did_doc,
    reads_resource, resource_plan_is, route_of, DidCheqdResolver, Plan, Request, RequestText,
    ResourcePlan, Route,
};
use crate::resolution::selector::{selection, time_of, ResourceSelector};
use vstd::prelude::*;
use vstd::string::StringExecFns;

verus! {

/// What the driver is to do next.
#[derive(Debug, PartialEq, Eq)]
pub enum Action {
    /// Open a connection to the node at `grpc_url`, and report `Connected`
    /// or `ConnectFailed`.
    Connect { grpc_url: String },
    /// Send `request` over the connection in `slot`, and report `Answered`
    /// or `QueryFailed`.
    Send { slot: usize, request: Request },
}

/// What a node answered to a query.
#[derive(Debug, PartialEq, Eq)]
pub enum Answer {
    /// To `DidDoc` and `DidDocVersion`: the value of the answer.
    DidDoc(Option<DidDocWithMetadata>),
    /// To `Resource`: the resource of the answer.
    Resource(Option<ResourceWithMetadata>),
    /// To `CollectionResources`: the resources of the answer.
    CollectionResources(Vec<CheqdResourceMetadata>),
}

/// What came of an action.
#[derive(Debug, PartialEq, Eq)]
pub enum Event {
    /// The connection stands. The driver holds it in the slot that the next
    /// `Send` names.
    Connected,
    /// The connection could not be opened; with the words of the cause.
    ConnectFailed(String),
    /// The node answered the query.
    Answered(Answer),
    /// The query failed; with the words of the cause.
    QueryFailed(String),
}

/// What the answer to a query is awaited for.
#[derive(Debug, PartialEq, Eq)]
pub enum Goal {
    /// For a DID document; `versioned` where a version of it was asked for.
    Document { versioned: bool },
    /// For a resource.
    Resource,
    /// For the listing of a collection, from which the revision of the name
    /// and type is to be selected that was created before `before`.
    Revision {
        network: String,
        collection_id: String,
        name: String,
        resource_type: String,
        before: Timestamp,
    },
}

/// Where a resolution stands between two steps.
#[derive(Debug, PartialEq, Eq)]
pub enum Pending {
    /// A connection to the network `namespace` is being opened; once it
    /// stands, `request` is to be sent for `goal`.
    Connecting { namespace: String, request: Request, goal: Goal },
    /// A query was sent for `goal`.
    Asked { goal: Goal },
}

/// What a resolution ends with.
#[derive(Debug, PartialEq, Eq)]
pub enum Resolved {
    /// A DID document, and what is recorded about it.
    Document(CheqdDidDoc, Option<CheqdDidDocMetadata>),
    /// The payload of a resource, and its media type.
    Resource(Vec<u8>, Option<String>),
}

/// One step of a resolution.
#[derive(Debug, PartialEq, Eq)]
pub enum Step {
    /// The driver is to carry out `action` and to come back with `pending`.
    Continue { action: Action, pending: Pending },
    /// The resolution is done.
    Finished(Resolved),
}

/// The step that sets `plan` going for `goal`: over a connection that stands
/// the query is sent at once, else the connection is opened first.
pub open spec fn started(plan: Plan, goal: Goal) -> Step {
    match plan.route {
        Route::Cached { slot } => Step::Continue {
            action: Action::Send { slot, request: plan.request },
            pending: Pending::Asked { goal },
        },
        Route::Connect { namespace, grpc_url } => Step::Continue {
            action: Action::Connect { grpc_url },
            pending: Pending::Connecting { namespace, request: plan.request, goal },
        },
    }
}

/// The step that follows on the outcome of planning: the plan set going, or
/// the error of the planning.
pub open spec fn started_or_failed(planned: DidCheqdResult<Plan>, goal: Goal) -> DidCheqdResult<
    Step,
> {
    match planned {
        Ok(plan) => Ok(started(plan, goal)),
        Err(error) => Err(error),
    }
}

/// What the lookup of `selector` awaits the answer to its first query for.
pub open spec fn goal_of(
    selector: ResourceSelector,
    network: String,
    collection_id: String,
) -> Goal {
    match selector {
        ResourceSelector::ExactId(_) => Goal::Resource,
        ResourceSelector::NameTypeTime { name, resource_type, before } => Goal::Revision {
            network,
            collection_id,
            name,
            resource_type,
            before,
        },
    }
}

/// The step that follows on the outcome of planning the lookup of a resource.
pub open spec fn resource_started_or_failed(
    planned: DidCheqdResult<ResourcePlan>,
) -> DidCheqdResult<Step> {
    match planned {
        Ok(first) => Ok(
            started(first.plan, goal_of(first.selector, first.network, first.collection_id)),
        ),
        Err(error) => Err(error),
    }
}

/// Whether `error` is the error for an event that does not answer what is
/// pending.
pub open spec fn out_of_turn(error: DidCheqdError) -> bool {
    error matches DidCheqdError::InvalidResponse(d) && d@
        == "The event does not answer what was asked for"@
}

/// The step that ends a resolution with the outcome of reading a document.
pub open spec fn finished_document(
    read: DidCheqdResult<(CheqdDidDoc, Option<CheqdDidDocMetadata>)>,
) -> DidCheqdResult<Step> {
    match read {
        Ok((did_doc, metadata)) => Ok(Step::Finished(Resolved::Document(did_doc, metadata))),
        Err(error) => Err(error),
    }
}

/// The step that ends a resolution with the outcome of reading a resource.
pub open spec fn finished_resource(
    read: DidCheqdResult<(Vec<u8>, Option<String>)>,
) -> DidCheqdResult<Step> {
    match read {
        Ok((data, media_type)) => Ok(Step::Finished(Resolved::Resource(data, media_type))),
        Err(error) => Err(error),
    }
}

/// The step that follows on the recording of a connection: the query over
/// the slot of the connection, or the error of the recording.
pub open spec fn sent_or_failed(
    slot: DidCheqdResult<usize>,
    request: Request,
    goal: Goal,
) -> DidCheqdResult<Step> {
    match slot {
        Ok(slot) => Ok(
            Step::Continue {
                action: Action::Send { slot, request },
                pending: Pending::Asked { goal },
            },
        ),
        Err(error) => Err(error),
    }
}

/// Once a connection to a namespace is recorded in a slot, every plan for
/// that namespace is set going with a query over that slot: no second
/// connection is opened.
pub proof fn lemma_recorded_connection_is_used(
    before: DidCheqdResolver,
    after: DidCheqdResolver,
    namespace: Seq<char>,
    slot: usize,
    planned: DidCheqdResult<Plan>,
    request: RequestText,
    goal: Goal,
)
    requires
        DidCheqdResolver::records_connection(
            &before,
            &after,
            namespace,
            Ok::<usize, DidCheqdError>(slot),
        ),
        plans(
            planned,
            route_of(after.networks(), after.connections(), namespace),
            request,
            namespace,
        ),
    ensures
        started_or_failed(planned, goal) matches Ok(
            Step::Continue { action: Action::Send { slot: used, request: sent }, pending },
        ) && used == slot && sent@ == request && pending == (Pending::Asked { goal }),
{
}

/// Sets `plan` going for `goal`.
pub fn start(plan: Plan, goal: Goal) -> (step: Step)
    ensures
        step == started(plan, goal),
{
    match plan.route {
        Route::Cached { slot } => Step::Continue {
            action: Action::Send { slot, request: plan.request },
            pending: Pending::Asked { goal },
        },
        Route::Connect { namespace, grpc_url } => Step::Continue {
            action: Action::Connect { grpc_url },
            pending: Pending::Connecting { namespace, request: plan.request, goal },
        },
    }
}

/// The error for an event that does not answer what is pending.
fn refuse_out_of_turn() -> (outcome: DidCheqdResult<Step>)
    ensures
        outcome matches Err(error) && out_of_turn(error),
{
    Err(
        DidCheqdError::InvalidResponse(
            String::from_str("The event does not answer what was asked for"),
        ),
    )
}

impl DidCheqdResolver {
    /// The first step of the resolution of a DID document: the query for
    /// the document, over the connection to its network where one stands,
    /// else the opening of that connection.
    ///
    /// For a namespace without a configured network there is no step: the
    /// error is `NetworkNotSupported`, and nothing is connected or sent.
    pub fn begin_document(&self, did_str: &str, parsed_did: DidCheqdParsed) -> (outcome:
        DidCheqdResult<Step>)
        ensures
            exists|planned: DidCheqdResult<Plan>|
                {
                    &&& #[trigger] plans(
                        planned,
                        route_of(self.networks(), self.connections(), parsed_did.namespace@),
                        did_doc_request(parsed_did.did@, text_of(parsed_did.version)),
                        parsed_did.namespace@,
                    )
                    &&& outcome == started_or_failed(
                        planned,
                        Goal::Document { versioned: parsed_did.version is Some },
                    )
                },
            !is_configured(self.networks(), parsed_did.namespace@) ==> outcome matches Err(
                DidCheqdError::NetworkNotSupported(_),
            ),
    {
        let versioned = parsed_did.version.is_some();
        let planned = self.query_did_doc_by_str(did_str, parsed_did);
        match planned {
            Ok(plan) => Ok(start(plan, Goal::Document { versioned })),
            Err(error) => Err(error),
        }
    }

    /// The first step of the lookup of a resource, where `now` is the
    /// present time.
    pub fn begin_resource_as_of(
        &self,
        did_url: &str,
        parsed_did: DidCheqdParsed,
        now: Timestamp,
    ) -> (outcome: DidCheqdResult<Step>)
        ensures
            exists|planned: DidCheqdResult<ResourcePlan>|
                {
                    &&& #[trigger] resource_plan_is(
                        planned,
                        selection(
                            map_of(parsed_did.query),
                            time_of(map_of(parsed_did.query)),
                            now,
                        ),
                        route_of(self.networks(), self.connections(), parsed_did.namespace@),
                        parsed_did.namespace@,
                        parsed_did.id@,
                        did_url@,
                    )
                    &&& outcome == resource_started_or_failed(planned)
                },
    {
        let planned = self.query_resource_as_of(did_url, parsed_did, now);
        Self::begin_with(planned)
    }

    /// The first step of the lookup of a resource. Where the query names no
    /// time, the time of the call stands in.
    pub fn begin_resource(&self, did_url: &str, parsed_did: DidCheqdParsed) -> (outcome:
        DidCheqdResult<Step>)
        ensures
            exists|planned: DidCheqdResult<ResourcePlan>, now: Timestamp|
                {
                    &&& #[trigger] resource_plan_is(
                        planned,
                        selection(
                            map_of(parsed_did.query),
                            time_of(map_of(parsed_did.query)),
                            now,
                        ),
                        route_of(self.networks(), self.connections(), parsed_did.namespace@),
                        parsed_did.namespace@,
                        parsed_did.id@,
                        did_url@,
                    )
                    &&& outcome == resource_started_or_failed(planned)
                },
    {
        let planned = self.query_resource_by_str(did_url, parsed_did);
        Self::begin_with(planned)
    }

    /// The step that follows on the outcome of planning the lookup of a
    /// resource.
    fn begin_with(planned: DidCheqdResult<ResourcePlan>) -> (outcome: DidCheqdResult<Step>)
        ensures
            outcome == resource_started_or_failed(planned),
    {
        match planned {
            Ok(first) => {
                let goal = match first.selector {
                    ResourceSelector::ExactId(_) => Goal::Resource,
                    ResourceSelector::NameTypeTime { name, resource_type, before } => {
                        Goal::Revision {
                            network: first.network,
                            collection_id: first.collection_id,
                            name,
                            resource_type,
                            before,
                        }
                    },
                };
                Ok(start(first.plan, goal))
            },
            Err(error) => Err(error),
        }
    }

    /// The step that follows on `event`, where `pending` is what the step
    /// before left.
    ///
    /// While a connection is being opened: once it stands it is recorded and
    /// the query is sent over it; a failure to open it is a
    /// `TransportError`. While an answer is awaited: a failed query is a
    /// `NonSuccessResponse`; the answer for a document or a resource ends the
    /// resolution with what it holds; the listing of a collection leads to
    /// the query for the revision that it selects. An event that does not
    /// answer what is pending is refused. Only the recording of a
    /// connection changes the resolver.
    pub fn advance(&mut self, pending: Pending, event: Event) -> (outcome: DidCheqdResult<Step>)
        ensures
            final(self).networks() == old(self).networks(),
            !(pending is Connecting && event is Connected) ==> final(self).connections() == old(
                self,
            ).connections(),
            match pending {
                Pending::Connecting { namespace, request, goal } => match event {
                    Event::Connected => exists|slot: DidCheqdResult<usize>|
                        {
                            &&& #[trigger] Self::records_connection(
                                old(self),
                                final(self),
                                namespace@,
                                slot,
                            )
                            &&& outcome == sent_or_failed(slot, request, goal)
                        },
                    Event::ConnectFailed(cause) => outcome matches Err(
                        DidCheqdError::TransportError(d),
                    ) && d@ == cause@,
                    _ => outcome matches Err(error) && out_of_turn(error),
                },
                Pending::Asked { goal } => match event {
                    Event::QueryFailed(cause) => outcome matches Err(
                        DidCheqdError::NonSuccessResponse(d),
                    ) && d@ == cause@,
                    Event::Answered(answer) => match (goal, answer) {
                        (Goal::Document { versioned }, Answer::DidDoc(value)) => exists|
                            read: DidCheqdResult<(CheqdDidDoc, Option<CheqdDidDocMetadata>)>,
                        |
                            {
                                &&& #[trigger] reads_did_doc(
                                    read,
                                    versioned,
                                    Ok::<Option<DidDocWithMetadata>, String>(value),
                                )
                                &&& outcome == finished_document(read)
                            },
                        (Goal::Resource, Answer::Resource(value)) => exists|
                            read: DidCheqdResult<(Vec<u8>, Option<String>)>,
                        |
                            {
                                &&& #[trigger] reads_resource(
                                    read,
                                    Ok::<Option<ResourceWithMetadata>, String>(value),
                                )
                                &&& outcome == finished_resource(read)
                            },
                        (
                            Goal::Revision { network, collection_id, name, resource_type, before },
                            Answer::CollectionResources(resources),
                        ) => exists|planned: DidCheqdResult<Plan>|
                            {
                                &&& #[trigger] old(self).plans_revision(
                                    planned,
                                    collection_id@,
                                    name@,
                                    resource_type@,
                                    before,
                                    network@,
                                    Ok::<Vec<CheqdResourceMetadata>, String>(resources),
                                )
                                &&& outcome == started_or_failed(planned, Goal::Resource)
                            },
                        _ => outcome matches Err(error) && out_of_turn(error),
                    },
                    _ => outcome matches Err(error) && out_of_turn(error),
                },
            },
    {
        match pending {
            Pending::Connecting { namespace, request, goal } => match event {
                Event::Connected => {
                    let slot = self.connection_opened(namespace.as_str());
                    match slot {
                        Ok(slot) => Ok(
                            Step::Continue {
                                action: Action::Send { slot, request },
                                pending: Pending::Asked { goal },
                            },
                        ),
                        Err(error) => Err(error),
                    }
                },
                Event::ConnectFailed(cause) => Err(DidCheqdError::TransportError(cause)),
                _ => refuse_out_of_turn(),
            },
            Pending::Asked { goal } => match event {
                Event::QueryFailed(cause) => Err(DidCheqdError::NonSuccessResponse(cause)),
                Event::Answered(answer) => match (goal, answer) {
                    (Goal::Document { versioned }, Answer::DidDoc(value)) => {
                        match read_did_doc(versioned, Ok(value)) {
                            Ok((did_doc, metadata)) => Ok(
                                Step::Finished(Resolved::Document(did_doc, metadata)),
                            ),
                            Err(error) => Err(error),
                        }
                    },
                    (Goal::Resource, Answer::Resource(value)) => {
                        match read_resource(Ok(value)) {
                            Ok((data, media_type)) => Ok(
                                Step::Finished(Resolved::Resource(data, media_type)),
                            ),
                            Err(error) => Err(error),
                        }
                    },
                    (
                        Goal::Revision { network, collection_id, name, resource_type, before },
                        Answer::CollectionResources(resources),
                    ) => {
                        let planned = self.resolve_resource_by_name_type_and_time(
                            collection_id.as_str(),
                            name.as_str(),
                            resource_type.as_str(),
                            before,
                            network.as_str(),
                            Ok(resources),
                        );
                        match planned {
                            Ok(plan) => Ok(start(plan, Goal::Resource)),
                            Err(error) => Err(error),
                        }
                    },
                    _ => refuse_out_of_turn(),
                },
                _ => refuse_out_of_turn(),
            },
        }
    }
}

} // verus!
