//! From the records of the ledger to JSON documents.
//!
//! A document is built as a `JsonValue`, a tree of plain values. What a
//! function builds is said over `Json`, the same tree by the text of its
//! strings.

use crate::error::{DidCheqdError, DidCheqdResult};
use crate::proto::{
    CheqdDidDoc, CheqdDidDocMetadata, CheqdResourceMetadata, Service, Timestamp,
    VerificationMethod,
};
use crate::text::{decimal, decimal_string, str_eq};
use vstd::prelude::*;
use vstd::string::StringExecFns;

verus! {

/// A JSON value.
#[derive(Debug, PartialEq, Eq)]
pub enum JsonValue {
    Bool(bool),
    Number(u32),
    String(String),
    Array(Vec<JsonValue>),
    /// The members in the order in which they were added.
    Object(Vec<Member>),
    /// A value given by the JSON text that spells it.
    Raw(String),
}

/// A member of a JSON object.
#[derive(Debug, PartialEq, Eq)]
pub struct Member {
    pub name: String,
    pub value: JsonValue,
}

/// A member of a JSON object, by the text of its strings.
pub struct JsonMember {
    pub name: Seq<char>,
    pub value: Json,
}

/// A JSON value, by the text of its strings.
pub enum Json {
    Bool(bool),
    Number(int),
    String(Seq<char>),
    Array(Seq<Json>),
    Object(Seq<JsonMember>),
    Raw(Seq<char>),
}

impl View for JsonValue {
    type V = Json;

    open spec fn view(&self) -> Json
        decreases self,
    {
        match self {
            JsonValue::Bool(b) => Json::Bool(*b),
            JsonValue::Number(n) => Json::Number(*n as int),
            JsonValue::String(s) => Json::String(s@),
            JsonValue::Raw(s) => Json::Raw(s@),
            JsonValue::Array(items) => Json::Array(
                Seq::new(
                    items@.len(),
                    |i: int|
                        if 0 <= i < items@.len() {
                            items@[i].view()
                        } else {
                            Json::Bool(false)
                        },
                ),
            ),
            JsonValue::Object(members) => Json::Object(
                Seq::new(
                    members@.len(),
                    |i: int|
                        if 0 <= i < members@.len() {
                            JsonMember { name: members@[i].name@, value: members@[i].value.view() }
                        } else {
                            JsonMember { name: Seq::empty(), value: Json::Bool(false) }
                        },
                ),
            ),
        }
    }
}

impl View for Member {
    type V = JsonMember;

    open spec fn view(&self) -> JsonMember {
        JsonMember { name: self.name@, value: self.value@ }
    }
}

/// The values of `items`, in their order.
pub open spec fn values_of(items: Seq<JsonValue>) -> Seq<Json> {
    Seq::new(items.len(), |i: int| items[i]@)
}

/// The members of `members`, in their order.
pub open spec fn members_of(members: Seq<Member>) -> Seq<JsonMember> {
    Seq::new(members.len(), |i: int| members[i]@)
}

impl JsonValue {
    /// The array of `items`.
    pub fn array(items: Vec<JsonValue>) -> (value: JsonValue)
        ensures
            value@ == Json::Array(values_of(items@)),
    {
        let value = JsonValue::Array(items);
        assert(value@->Array_0 =~= values_of(items@));
        value
    }

    /// The object of `members`.
    pub fn object(members: Vec<Member>) -> (value: JsonValue)
        ensures
            value@ == Json::Object(members_of(members@)),
    {
        let value = JsonValue::Object(members);
        assert(value@->Object_0 =~= members_of(members@));
        value
    }

    /// The string `text`.
    pub fn string(text: &str) -> (value: JsonValue)
        ensures
            value@ == Json::String(text@),
    {
        JsonValue::String(String::from_str(text))
    }
}

/// Whether `text` spells a JSON value.
pub uninterp spec fn is_json(text: Seq<char>) -> bool;

/// The text of the date and time at `seconds` and `nanos` from the Unix
/// epoch, as RFC 3339 writes it; `None` where no date stands for them.
pub uninterp spec fn rfc3339_text(seconds: i64, nanos: u32) -> Option<Seq<char>>;

/// The member `name` with the value `value`.
pub open spec fn member(name: Seq<char>, value: Json) -> JsonMember {
    JsonMember { name, value }
}

/// The array of the strings `items`.
pub open spec fn strings_json(items: Seq<String>) -> Json {
    Json::Array(string_values(items))
}

/// The member `name` with the array of the strings `items`; no member where
/// there are none.
pub open spec fn strings_member(name: Seq<char>, items: Seq<String>) -> Seq<JsonMember> {
    if items.len() == 0 {
        Seq::empty()
    } else {
        seq![member(name, strings_json(items))]
    }
}

/// The member `name` with the string `text`; no member where the text is empty.
pub open spec fn text_member(name: Seq<char>, text: Seq<char>) -> Seq<JsonMember> {
    if text.len() == 0 {
        Seq::empty()
    } else {
        seq![member(name, Json::String(text))]
    }
}

/// The value that `text` spells where it spells one, else `text` as a string.
pub open spec fn json_or_string(text: Seq<char>) -> Json {
    if is_json(text) {
        Json::Raw(text)
    } else {
        Json::String(text)
    }
}

/// The context that every DID document names.
pub open spec fn did_context() -> Seq<char> {
    "https://www.w3.org/ns/did/v1"@
}

/// Whether `text` is the context of DID documents, under either of its names.
pub open spec fn is_did_context(text: Seq<char>) -> bool {
    text == did_context() || text == "https://w3id.org/did/v1"@
}

/// Whether `context` names the context of DID documents.
pub open spec fn has_did_context(context: Seq<String>) -> bool {
    exists|i: int| 0 <= i < context.len() && is_did_context(#[trigger] context[i]@)
}

/// The contexts of a document: those given, and after them the context of
/// DID documents where they do not name it.
pub open spec fn context_json(context: Seq<String>) -> Json {
    if has_did_context(context) {
        strings_json(context)
    } else {
        Json::Array(string_values(context).push(Json::String(did_context())))
    }
}

/// A verification method as a member of a document.
pub open spec fn verification_method_json(method: VerificationMethod) -> Json {
    Json::Object(
        seq![
            member("id"@, Json::String(method.id@)),
            member("type"@, Json::String(method.verification_method_type@)),
            member("controller"@, Json::String(method.controller@)),
            member("publicKey"@, json_or_string(method.verification_material@)),
        ],
    )
}

/// The endpoints of a service: no member where there are none, the one
/// endpoint as a string, or several as an array.
pub open spec fn endpoint_member(endpoints: Seq<String>) -> Seq<JsonMember> {
    if endpoints.len() == 0 {
        Seq::empty()
    } else if endpoints.len() == 1 {
        seq![member("serviceEndpoint"@, Json::String(endpoints[0]@))]
    } else {
        seq![member("serviceEndpoint"@, strings_json(endpoints))]
    }
}

/// The priority of a service; no member where it is zero.
pub open spec fn priority_member(priority: u32) -> Seq<JsonMember> {
    if priority == 0 {
        Seq::empty()
    } else {
        seq![member("priority"@, Json::Number(priority as int))]
    }
}

/// A service as a member of a document.
pub open spec fn service_json(service: Service) -> Json {
    Json::Object(
        seq![
            member("id"@, Json::String(service.id@)),
            member("type"@, Json::String(service.service_type@)),
        ] + endpoint_member(service.service_endpoint@) + strings_member(
            "recipientKeys"@,
            service.recipient_keys@,
        ) + strings_member("routingKeys"@, service.routing_keys@) + strings_member(
            "accept"@,
            service.accept@,
        ) + priority_member(service.priority),
    )
}

/// The member `verificationMethod`; no member where there is no method.
pub open spec fn verification_methods_member(methods: Seq<VerificationMethod>) -> Seq<JsonMember> {
    if methods.len() == 0 {
        Seq::empty()
    } else {
        seq![
            member(
                "verificationMethod"@,
                Json::Array(Seq::new(methods.len(), |i: int| verification_method_json(methods[i]))),
            ),
        ]
    }
}

/// The member `assertionMethod`, each entry as the JSON that it spells or
/// as a string; no member where there is no entry.
pub open spec fn assertion_methods_member(methods: Seq<String>) -> Seq<JsonMember> {
    if methods.len() == 0 {
        Seq::empty()
    } else {
        seq![
            member(
                "assertionMethod"@,
                Json::Array(Seq::new(methods.len(), |i: int| json_or_string(methods[i]@))),
            ),
        ]
    }
}

/// The member `service`; no member where there is no service.
pub open spec fn services_member(services: Seq<Service>) -> Seq<JsonMember> {
    if services.len() == 0 {
        Seq::empty()
    } else {
        seq![
            member(
                "service"@,
                Json::Array(Seq::new(services.len(), |i: int| service_json(services[i]))),
            ),
        ]
    }
}

/// The DID document of a record: its id and contexts, and each further
/// member that the record has entries for.
pub open spec fn did_doc_json(doc: CheqdDidDoc) -> Json {
    Json::Object(
        seq![
            member("id"@, Json::String(doc.id@)),
            member("@context"@, context_json(doc.context@)),
        ] + strings_member("controller"@, doc.controller@) + verification_methods_member(
            doc.verification_method@,
        ) + strings_member("authentication"@, doc.authentication@) + assertion_methods_member(
            doc.assertion_method@,
        ) + strings_member("capabilityInvocation"@, doc.capability_invocation@) + strings_member(
            "capabilityDelegation"@,
            doc.capability_delegation@,
        ) + strings_member("keyAgreement"@, doc.key_agreement@) + services_member(doc.service@)
            + strings_member("alsoKnownAs"@, doc.also_known_as@),
    )
}

/// Adding a member to the members of an object adds it to what they stand for.
proof fn lemma_members_push(members: Seq<Member>, added: Member)
    ensures
        members_of(members.push(added)) == members_of(members).push(added@),
{
    assert(members_of(members.push(added)) =~= members_of(members).push(added@));
}

/// Adding a value to the items of an array adds it to what they stand for.
proof fn lemma_values_push(items: Seq<JsonValue>, added: JsonValue)
    ensures
        values_of(items.push(added)) == values_of(items).push(added@),
{
    assert(values_of(items.push(added)) =~= values_of(items).push(added@));
}

/// The strings `items` as JSON values, in their order.
pub open spec fn string_values(items: Seq<String>) -> Seq<Json> {
    Seq::new(items.len(), |i: int| Json::String(items[i]@))
}

/// The strings `items` as JSON values, in their order.
fn strings_to_values(items: &Vec<String>) -> (values: Vec<JsonValue>)
    ensures
        values_of(values@) == string_values(items@),
{
    let mut values: Vec<JsonValue> = Vec::new();
    let mut i: usize = 0;
    while i < items.len()
        invariant
            i <= items.len(),
            values_of(values@) == string_values(items@.take(i as int)),
        decreases items.len() - i,
    {
        let ghost before = values@;
        let item = JsonValue::String(items[i].clone());
        values.push(item);
        proof {
            lemma_values_push(before, item);
            assert(values_of(values@) =~= string_values(items@.take(i + 1)));
        }
        i += 1;
    }
    assert(items@.take(items.len() as int) =~= items@);
    values
}

/// The array of the strings `items`.
pub fn strings_to_json(items: &Vec<String>) -> (value: JsonValue)
    ensures
        value@ == strings_json(items@),
{
    JsonValue::array(strings_to_values(items))
}

/// Adds the member `name` with the value `value`.
fn add_member(members: &mut Vec<Member>, name: &str, value: JsonValue)
    ensures
        members_of(final(members)@) == members_of(old(members)@).push(member(name@, value@)),
{
    let added = Member { name: String::from_str(name), value };
    proof {
        lemma_members_push(members@, added);
    }
    members.push(added);
}

/// Adds the member `name` with the array of `items`, unless there are none.
fn add_strings(members: &mut Vec<Member>, name: &str, items: &Vec<String>)
    ensures
        members_of(final(members)@) == members_of(old(members)@) + strings_member(name@, items@),
{
    if items.len() > 0 {
        add_member(members, name, strings_to_json(items));
        assert(members_of(members@) =~= members_of(old(members)@) + strings_member(
            name@,
            items@,
        ));
    } else {
        assert(members_of(members@) =~= members_of(old(members)@) + strings_member(
            name@,
            items@,
        ));
    }
}

/// Adds the member `name` with the string `text`, unless it is empty.
fn add_text(members: &mut Vec<Member>, name: &str, text: &String)
    ensures
        members_of(final(members)@) == members_of(old(members)@) + text_member(name@, text@),
{
    if !text.as_str().is_empty() {
        add_member(members, name, JsonValue::String(text.clone()));
        assert(members_of(members@) =~= members_of(old(members)@) + text_member(name@, text@));
    } else {
        assert(members_of(members@) =~= members_of(old(members)@) + text_member(name@, text@));
    }
}

/// The value for `text`, where it is known whether `text` spells a JSON value.
pub fn json_or_string_given(text: &String, spells_json: bool) -> (value: JsonValue)
    ensures
        spells_json ==> value@ == Json::Raw(text@),
        !spells_json ==> value@ == Json::String(text@),
{
    if spells_json {
        JsonValue::Raw(text.clone())
    } else {
        JsonValue::String(text.clone())
    }
}

/// The value that `text` spells where it spells one, else `text` as a string.
pub fn json_or_string_of(text: &String) -> (value: JsonValue)
    ensures
        value@ == json_or_string(text@),
{
    let spells_json = spells_json(text.as_str());
    json_or_string_given(text, spells_json)
}

/// Whether `context` names the context of DID documents.
fn names_did_context(context: &Vec<String>) -> (yes: bool)
    ensures
        yes == has_did_context(context@),
{
    let mut i: usize = 0;
    while i < context.len()
        invariant
            i <= context.len(),
            forall|k: int| 0 <= k < i ==> !is_did_context(#[trigger] context@[k]@),
        decreases context.len() - i,
    {
        if str_eq(context[i].as_str(), "https://www.w3.org/ns/did/v1") || str_eq(
            context[i].as_str(),
            "https://w3id.org/did/v1",
        ) {
            return true;
        }
        i += 1;
    }
    false
}

/// The contexts of a document.
fn context_to_json(context: &Vec<String>) -> (value: JsonValue)
    ensures
        value@ == context_json(context@),
{
    let mut values = strings_to_values(context);
    if !names_did_context(context) {
        let ghost given = values@;
        let last = JsonValue::string("https://www.w3.org/ns/did/v1");
        values.push(last);
        proof {
            lemma_values_push(given, last);
        }
    }
    JsonValue::array(values)
}

/// A verification method as a member of a document.
fn verification_method_to_json(method: &VerificationMethod) -> (value: JsonValue)
    ensures
        value@ == verification_method_json(*method),
{
    let mut members: Vec<Member> = Vec::new();
    assert(members_of(members@) =~= Seq::<JsonMember>::empty());
    add_member(&mut members, "id", JsonValue::String(method.id.clone()));
    add_member(&mut members, "type", JsonValue::String(method.verification_method_type.clone()));
    add_member(&mut members, "controller", JsonValue::String(method.controller.clone()));
    add_member(&mut members, "publicKey", json_or_string_of(&method.verification_material));
    assert(members_of(members@) =~= verification_method_json(*method)->Object_0);
    JsonValue::object(members)
}

/// A service as a member of a document.
fn service_to_json(service: &Service) -> (value: JsonValue)
    ensures
        value@ == service_json(*service),
{
    let mut members: Vec<Member> = Vec::new();
    assert(members_of(members@) =~= Seq::<JsonMember>::empty());
    add_member(&mut members, "id", JsonValue::String(service.id.clone()));
    add_member(&mut members, "type", JsonValue::String(service.service_type.clone()));
    let ghost head = members_of(members@);
    if service.service_endpoint.len() == 1 {
        add_member(
            &mut members,
            "serviceEndpoint",
            JsonValue::String(service.service_endpoint[0].clone()),
        );
    } else if service.service_endpoint.len() > 1 {
        add_member(&mut members, "serviceEndpoint", strings_to_json(&service.service_endpoint));
    }
    assert(members_of(members@) =~= head + endpoint_member(service.service_endpoint@));
    add_strings(&mut members, "recipientKeys", &service.recipient_keys);
    add_strings(&mut members, "routingKeys", &service.routing_keys);
    add_strings(&mut members, "accept", &service.accept);
    let ghost body = members_of(members@);
    if service.priority != 0 {
        add_member(&mut members, "priority", JsonValue::Number(service.priority));
    }
    assert(members_of(members@) =~= body + priority_member(service.priority));
    assert(members_of(members@) =~= service_json(*service)->Object_0);
    JsonValue::object(members)
}

/// Adds the member `verificationMethod`, unless there is no method.
fn add_verification_methods(members: &mut Vec<Member>, methods: &Vec<VerificationMethod>)
    ensures
        members_of(final(members)@) == members_of(old(members)@) + verification_methods_member(
            methods@,
        ),
{
    if methods.len() > 0 {
        let mut values: Vec<JsonValue> = Vec::new();
        let mut i: usize = 0;
        while i < methods.len()
            invariant
                i <= methods.len(),
                values_of(values@) == Seq::new(
                    i as nat,
                    |k: int| verification_method_json(methods@[k]),
                ),
            decreases methods.len() - i,
        {
            let ghost before = values@;
            let method = verification_method_to_json(&methods[i]);
            values.push(method);
            proof {
                lemma_values_push(before, method);
                assert(values_of(values@) =~= Seq::new(
                    (i + 1) as nat,
                    |k: int| verification_method_json(methods@[k]),
                ));
            }
            i += 1;
        }
        add_member(members, "verificationMethod", JsonValue::array(values));
    }
    assert(members_of(members@) =~= members_of(old(members)@) + verification_methods_member(
        methods@,
    ));
}

/// Adds the member `assertionMethod`, unless there is no entry.
fn add_assertion_methods(members: &mut Vec<Member>, methods: &Vec<String>)
    ensures
        members_of(final(members)@) == members_of(old(members)@) + assertion_methods_member(
            methods@,
        ),
{
    if methods.len() > 0 {
        let mut values: Vec<JsonValue> = Vec::new();
        let mut i: usize = 0;
        while i < methods.len()
            invariant
                i <= methods.len(),
                values_of(values@) == Seq::new(i as nat, |k: int| json_or_string(methods@[k]@)),
            decreases methods.len() - i,
        {
            let ghost before = values@;
            let method = json_or_string_of(&methods[i]);
            values.push(method);
            proof {
                lemma_values_push(before, method);
                assert(values_of(values@) =~= Seq::new(
                    (i + 1) as nat,
                    |k: int| json_or_string(methods@[k]@),
                ));
            }
            i += 1;
        }
        add_member(members, "assertionMethod", JsonValue::array(values));
    }
    assert(members_of(members@) =~= members_of(old(members)@) + assertion_methods_member(
        methods@,
    ));
}

/// Adds the member `service`, unless there is no service.
fn add_services(members: &mut Vec<Member>, services: &Vec<Service>)
    ensures
        members_of(final(members)@) == members_of(old(members)@) + services_member(services@),
{
    if services.len() > 0 {
        let mut values: Vec<JsonValue> = Vec::new();
        let mut i: usize = 0;
        while i < services.len()
            invariant
                i <= services.len(),
                values_of(values@) == Seq::new(i as nat, |k: int| service_json(services@[k])),
            decreases services.len() - i,
        {
            let ghost before = values@;
            let service = service_to_json(&services[i]);
            values.push(service);
            proof {
                lemma_values_push(before, service);
                assert(values_of(values@) =~= Seq::new(
                    (i + 1) as nat,
                    |k: int| service_json(services@[k]),
                ));
            }
            i += 1;
        }
        add_member(members, "service", JsonValue::array(values));
    }
    assert(members_of(members@) =~= members_of(old(members)@) + services_member(services@));
}

/// The DID document of a record, as JSON.
///
/// The document has the id of the record and its contexts, with the context
/// of DID documents added where the record does not name it. Each further
/// member is there where the record has entries for it. A verification
/// material, and an assertion method, that spells a JSON value stands in the
/// document as that value, any other as a string.
pub fn cheqd_diddoc_to_json(value: CheqdDidDoc) -> (outcome: Result<JsonValue, DidCheqdError>)
    ensures
        outcome matches Ok(document) && document@ == did_doc_json(value),
{
    let mut members: Vec<Member> = Vec::new();
    assert(members_of(members@) =~= Seq::<JsonMember>::empty());
    add_member(&mut members, "id", JsonValue::String(value.id.clone()));
    add_member(&mut members, "@context", context_to_json(&value.context));
    add_strings(&mut members, "controller", &value.controller);
    add_verification_methods(&mut members, &value.verification_method);
    add_strings(&mut members, "authentication", &value.authentication);
    add_assertion_methods(&mut members, &value.assertion_method);
    add_strings(&mut members, "capabilityInvocation", &value.capability_invocation);
    add_strings(&mut members, "capabilityDelegation", &value.capability_delegation);
    add_strings(&mut members, "keyAgreement", &value.key_agreement);
    add_services(&mut members, &value.service);
    add_strings(&mut members, "alsoKnownAs", &value.also_known_as);
    assert(members_of(members@) =~= did_doc_json(value)->Object_0);
    Ok(JsonValue::object(members))
}

/// The text of `time` as RFC 3339 writes it, taken in normal form; `None`
/// where no date stands for it.
pub open spec fn rendering(time: Timestamp) -> Option<Seq<char>> {
    rfc3339_text(time.normal_form().seconds, time.normal_form().nanos as u32)
}

/// The words for a timestamp for which no date stands.
pub open spec fn bad_timestamp_detail(time: Timestamp) -> Seq<char> {
    "Unknown error, bad timestamp: Timestamp { seconds: "@ + decimal(time.seconds as int)
        + ", nanos: "@ + decimal(time.nanos as int) + " }"@
}

/// Whether `time` is a timestamp for which no date stands.
pub open spec fn unrenderable(time: Option<Timestamp>) -> bool {
    time matches Some(t) && rendering(t) is None
}

/// The member `name` with the text of `time`; no member where there is no
/// time.
pub open spec fn time_member(name: Seq<char>, time: Option<Timestamp>) -> Seq<JsonMember> {
    match time {
        Some(t) => match rendering(t) {
            Some(text) => seq![member(name, Json::String(text))],
            None => Seq::empty(),
        },
        None => Seq::empty(),
    }
}

/// What is recorded about a version of a DID document: when it was created
/// and updated, as far as that is recorded, whether it is deactivated, and
/// its version and the next, as far as they are named.
pub open spec fn did_doc_metadata_json(metadata: CheqdDidDocMetadata) -> Json {
    Json::Object(
        time_member("created"@, metadata.created) + time_member("updated"@, metadata.updated)
            + seq![member("deactivated"@, Json::Bool(metadata.deactivated))] + text_member(
            "versionId"@,
            metadata.version_id@,
        ) + text_member("nextVersionId"@, metadata.next_version_id@),
    )
}

/// What is recorded about a revision of a resource, with the URI under which
/// the resource is found. `created` is the text of its creation time.
pub open spec fn resource_metadata_json(
    uri: Seq<char>,
    metadata: CheqdResourceMetadata,
    created: Seq<char>,
) -> Json {
    Json::Object(
        seq![
            member("uri"@, Json::String(uri)),
            member("collectionId"@, Json::String(metadata.collection_id@)),
            member("id"@, Json::String(metadata.id@)),
            member("name"@, Json::String(metadata.name@)),
            member("type"@, Json::String(metadata.resource_type@)),
        ] + text_member("version"@, metadata.version@) + seq![
            member("mediaType"@, Json::String(metadata.media_type@)),
            member("created"@, Json::String(created)),
        ] + text_member("checksum"@, metadata.checksum@),
    )
}

/// What is recorded about a revision of a resource, and where the resource
/// is found.
#[derive(Debug, PartialEq, Eq)]
pub struct CheqdResourceMetadataWithUri {
    pub uri: String,
    pub meta: CheqdResourceMetadata,
}

/// The text of the normal timestamp `normal`, where `rendered` is what
/// rendering it gave.
pub fn timestamp_text_given(normal: Timestamp, rendered: Option<String>) -> (outcome:
    DidCheqdResult<String>)
    ensures
        match rendered {
            Some(text) => outcome == Ok::<String, DidCheqdError>(text),
            None => outcome matches Err(DidCheqdError::Other(d)) && d@ == bad_timestamp_detail(
                normal,
            ),
        },
{
    match rendered {
        Some(text) => Ok(text),
        None => {
            let mut detail = String::from_str(
                "Unknown error, bad timestamp: Timestamp { seconds: ",
            );
            detail.append(decimal_string(normal.seconds).as_str());
            detail.append(", nanos: ");
            detail.append(decimal_string(normal.nanos as i64).as_str());
            detail.append(" }");
            Err(DidCheqdError::Other(detail))
        },
    }
}

/// The date and time of `timestamp` as RFC 3339 writes it. The timestamp is
/// taken in normal form; one for which no date stands is refused.
pub fn timestamp_to_rfc3339(timestamp: Timestamp) -> (outcome: DidCheqdResult<String>)
    ensures
        match rendering(timestamp) {
            Some(text) => outcome matches Ok(t) && t@ == text,
            None => outcome matches Err(DidCheqdError::Other(d)) && d@ == bad_timestamp_detail(
                timestamp.normal_form(),
            ),
        },
{
    let normal = timestamp.normalized();
    let rendered = rfc3339_of(normal.seconds, normal.nanos as u32);
    timestamp_text_given(normal, rendered)
}

/// Adds the member `name` with the text of `time`, where there is a time.
fn add_time(members: &mut Vec<Member>, name: &str, time: Option<Timestamp>) -> (outcome:
    DidCheqdResult<()>)
    ensures
        unrenderable(time) ==> (outcome matches Err(DidCheqdError::Other(d)) && d@
            == bad_timestamp_detail(time->0.normal_form())),
        !unrenderable(time) ==> outcome is Ok && members_of(final(members)@) == members_of(
            old(members)@,
        ) + time_member(name@, time),
{
    match time {
        Some(t) => {
            let text = match timestamp_to_rfc3339(t) {
                Ok(text) => text,
                Err(error) => {
                    return Err(error);
                },
            };
            add_member(members, name, JsonValue::String(text));
            assert(members_of(members@) =~= members_of(old(members)@) + time_member(name@, time));
            Ok(())
        },
        None => {
            assert(members_of(members@) =~= members_of(old(members)@) + time_member(name@, time));
            Ok(())
        },
    }
}

/// What is recorded about a version of a DID document, as JSON.
///
/// A creation or update time for which no date stands is refused, the
/// creation time first.
pub fn cheqd_diddoc_metadata_to_json(value: CheqdDidDocMetadata) -> (outcome: Result<
    JsonValue,
    DidCheqdError,
>)
    ensures
        if unrenderable(value.created) {
            outcome matches Err(DidCheqdError::Other(d)) && d@ == bad_timestamp_detail(
                value.created->0.normal_form(),
            )
        } else if unrenderable(value.updated) {
            outcome matches Err(DidCheqdError::Other(d)) && d@ == bad_timestamp_detail(
                value.updated->0.normal_form(),
            )
        } else {
            outcome matches Ok(document) && document@ == did_doc_metadata_json(value)
        },
{
    let mut members: Vec<Member> = Vec::new();
    assert(members_of(members@) =~= Seq::<JsonMember>::empty());
    match add_time(&mut members, "created", value.created) {
        Ok(()) => {},
        Err(error) => {
            return Err(error);
        },
    }
    match add_time(&mut members, "updated", value.updated) {
        Ok(()) => {},
        Err(error) => {
            return Err(error);
        },
    }
    add_member(&mut members, "deactivated", JsonValue::Bool(value.deactivated));
    add_text(&mut members, "versionId", &value.version_id);
    add_text(&mut members, "nextVersionId", &value.next_version_id);
    assert(members_of(members@) =~= did_doc_metadata_json(value)->Object_0);
    Ok(JsonValue::object(members))
}

/// What is recorded about a revision of a resource, as JSON, with the URI of
/// the resource.
///
/// A revision without a creation time is refused as no valid record, and one
/// with a creation time for which no date stands likewise.
pub fn cheqd_resource_metadata_with_uri_to_json(value: CheqdResourceMetadataWithUri) -> (outcome:
    Result<JsonValue, DidCheqdError>)
    ensures
        match value.meta.created {
            None => outcome matches Err(DidCheqdError::InvalidDidDocument(d)) && d@
                == "created field missing from resource: "@ + value.meta.id@,
            Some(time) => match rendering(time) {
                None => outcome matches Err(DidCheqdError::Other(d)) && d@
                    == bad_timestamp_detail(time.normal_form()),
                Some(created) => outcome matches Ok(document) && document@
                    == resource_metadata_json(value.uri@, value.meta, created),
            },
        },
{
    let uri = value.uri;
    let value = value.meta;
    let created = match value.created {
        Some(created) => created,
        None => {
            let mut detail = String::from_str("created field missing from resource: ");
            detail.append(value.id.as_str());
            return Err(DidCheqdError::InvalidDidDocument(detail));
        },
    };
    let created = match timestamp_to_rfc3339(created) {
        Ok(text) => text,
        Err(error) => {
            return Err(error);
        },
    };
    let mut members: Vec<Member> = Vec::new();
    assert(members_of(members@) =~= Seq::<JsonMember>::empty());
    add_member(&mut members, "uri", JsonValue::String(uri));
    add_member(&mut members, "collectionId", JsonValue::String(value.collection_id.clone()));
    add_member(&mut members, "id", JsonValue::String(value.id.clone()));
    add_member(&mut members, "name", JsonValue::String(value.name.clone()));
    add_member(&mut members, "type", JsonValue::String(value.resource_type.clone()));
    add_text(&mut members, "version", &value.version);
    add_member(&mut members, "mediaType", JsonValue::String(value.media_type.clone()));
    add_member(&mut members, "created", JsonValue::String(created));
    add_text(&mut members, "checksum", &value.checksum);
    assert(members_of(members@) =~= resource_metadata_json(uri@, value, created@)->Object_0);
    Ok(JsonValue::object(members))
}

/// `chrono::DateTime::from_timestamp`, then the RFC 3339 text of the time
/// (`DateTime::to_rfc3339`).
///
/// Trusted: what comes back depends on the two numbers alone; it is what
/// `rfc3339_text` names.
#[verifier::external_body]
fn rfc3339_of(seconds: i64, nanos: u32) -> (text: Option<String>)
    ensures
        rfc3339_text(seconds, nanos) == match text {
            Some(text) => Some(text@),
            None => None::<Seq<char>>,
        },
{
    match chrono::DateTime::from_timestamp(seconds, nanos) {
        Some(time) => Some(time.to_rfc3339()),
        None => None,
    }
}

/// `serde_json::from_str::<serde_json::Value>`, asked only whether it
/// succeeds.
///
/// Trusted: whether the text is taken as JSON depends on the text alone; it
/// is what `is_json` names.
#[verifier::external_body]
fn spells_json(text: &str) -> (yes: bool)
    ensures
        yes == is_json(text@),
{
    serde_json::from_str::<serde_json::Value>(text).is_ok()
}

} // verus!
