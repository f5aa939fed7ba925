//! How the query of a DID URL selects a resource: by its identifier, or by
//! its name and type as of a time.

use crate::error::{DidCheqdError, DidCheqdResult};
use crate::proto::{instant_of, Timestamp};
use crate::resolution::parser::map_of;
use crate::resolution::query::QueryMap;
use crate::text::joined;
use vstd::prelude::*;
use vstd::string::StringExecFns;

verus! {

/// Which resource of a collection is asked for.
#[derive(Debug, PartialEq, Eq)]
pub enum ResourceSelector {
    /// The resource with this identifier.
    ExactId(String),
    /// The latest revision with this name and type that was created before
    /// the instant `before`.
    NameTypeTime { name: String, resource_type: String, before: Timestamp },
}

/// A selector, by the text of its parts.
pub enum Selection {
    ExactId(Seq<char>),
    NameTypeTime { name: Seq<char>, resource_type: Seq<char>, before: Timestamp },
}

impl View for ResourceSelector {
    type V = Selection;

    open spec fn view(&self) -> Selection {
        match self {
            ResourceSelector::ExactId(id) => Selection::ExactId(id@),
            ResourceSelector::NameTypeTime { name, resource_type, before } => {
                Selection::NameTypeTime {
                    name: name@,
                    resource_type: resource_type@,
                    before: *before,
                }
            },
        }
    }
}

/// Why a query selects no resource.
pub enum SelectionFailure {
    /// The URL has neither a resource path nor a query.
    NoQuery,
    /// The query gives neither `resourceId` nor both of `resourceName` and
    /// `resourceType`.
    Incomplete,
    /// The query gives a `resourceVersionTime` that cannot be read; with the
    /// reason.
    UnreadableTime(Seq<char>),
}

/// What reading `text` as an RFC 3339 date and time gives: the whole
/// seconds from the Unix epoch to that time with the nanoseconds beyond
/// them, or the reason why `text` is no such time.
pub uninterp spec fn rfc3339_reading(text: Seq<char>) -> Result<(i64, u32), Seq<char>>;

/// The selector that a query stands for.
///
/// `time` is the reading of the `resourceVersionTime` parameter where the
/// query has one, and `now` is the time that stands in where it has none.
/// `resourceId` is looked at first: with it, name, type and time play no
/// part.
pub open spec fn selection(
    query: Option<Map<Seq<char>, Seq<char>>>,
    time: Option<Result<Timestamp, Seq<char>>>,
    now: Timestamp,
) -> Result<Selection, SelectionFailure> {
    match query {
        None => Err(SelectionFailure::NoQuery),
        Some(q) => if q.contains_key("resourceId"@) {
            Ok(Selection::ExactId(q["resourceId"@]))
        } else if q.contains_key("resourceName"@) && q.contains_key("resourceType"@) {
            match time {
                Some(Err(reason)) => Err(SelectionFailure::UnreadableTime(reason)),
                Some(Ok(before)) => Ok(
                    Selection::NameTypeTime {
                        name: q["resourceName"@],
                        resource_type: q["resourceType"@],
                        before,
                    },
                ),
                None => Ok(
                    Selection::NameTypeTime {
                        name: q["resourceName"@],
                        resource_type: q["resourceType"@],
                        before: now,
                    },
                ),
            }
        } else {
            Err(SelectionFailure::Incomplete)
        },
    }
}

/// The instant that a reading stands for, or the reason that it gives.
pub open spec fn instant_read(reading: Result<(i64, u32), Seq<char>>) -> Result<
    Timestamp,
    Seq<char>,
> {
    match reading {
        Ok((seconds, nanos)) => Ok(instant_of(seconds, nanos)),
        Err(reason) => Err(reason),
    }
}

/// The instant that the `resourceVersionTime` parameter of a query names,
/// where it has one: the parameter read as an RFC 3339 date and time.
pub open spec fn time_of(query: Option<Map<Seq<char>, Seq<char>>>) -> Option<
    Result<Timestamp, Seq<char>>,
> {
    match query {
        Some(q) if q.contains_key("resourceVersionTime"@) => Some(
            instant_read(rfc3339_reading(q["resourceVersionTime"@])),
        ),
        _ => None,
    }
}

/// A time as it was handed over, by the text of its reason.
pub open spec fn reading_of(time: Option<Result<Timestamp, String>>) -> Option<
    Result<Timestamp, Seq<char>>,
> {
    match time {
        Some(Ok(instant)) => Some(Ok(instant)),
        Some(Err(reason)) => Some(Err(reason@)),
        None => None,
    }
}

/// Whether `error` is the error of a lookup with the URL `did_url` that
/// selects nothing for the reason `why`: `InvalidDidUrl`, with the words of
/// the reason.
pub open spec fn selection_error(
    error: DidCheqdError,
    why: SelectionFailure,
    did_url: Seq<char>,
) -> bool {
    &&& error is InvalidDidUrl
    &&& error.detail() == match why {
        SelectionFailure::NoQuery => "No resource path or query present: "@ + did_url,
        SelectionFailure::Incomplete => incomplete_words() + did_url,
        SelectionFailure::UnreadableTime(reason) => reason,
    }
}

/// The words with which a query is refused that gives neither an identifier
/// nor both a name and a type.
pub open spec fn incomplete_words() -> Seq<char> {
    "Resolver can only resolve by exact resource ID or name+type combination "@
}

/// Whether `outcome` is what a lookup with the URL `did_url` owes for
/// `expected`: the selector itself, or the error of the failure.
pub open spec fn gives(
    outcome: DidCheqdResult<ResourceSelector>,
    expected: Result<Selection, SelectionFailure>,
    did_url: Seq<char>,
) -> bool {
    match expected {
        Ok(selection) => outcome matches Ok(selector) && selector@ == selection,
        Err(why) => outcome matches Err(error) && selection_error(error, why, did_url),
    }
}

/// A query without `resourceId`, and without one of `resourceName` and
/// `resourceType`, selects nothing, whatever time it gives.
pub proof fn lemma_incomplete_query_selects_nothing(
    query: Option<Map<Seq<char>, Seq<char>>>,
    time: Option<Result<Timestamp, Seq<char>>>,
    now: Timestamp,
)
    requires
        query matches Some(q) ==> !q.contains_key("resourceId"@) && !(q.contains_key(
            "resourceName"@,
        ) && q.contains_key("resourceType"@)),
    ensures
        selection(query, time, now) is Err,
        selection(query, time, now) matches Err(why) && (why is NoQuery || why is Incomplete),
{
}

/// Whatever a query selects nothing for, the lookup fails with `InvalidDidUrl`.
pub proof fn lemma_no_selection_is_invalid_url(
    outcome: DidCheqdResult<ResourceSelector>,
    expected: Result<Selection, SelectionFailure>,
    did_url: Seq<char>,
)
    requires
        gives(outcome, expected, did_url),
        expected is Err,
    ensures
        outcome matches Err(DidCheqdError::InvalidDidUrl(_)),
{
}

impl ResourceSelector {
    /// The selector of `query`, where the reading of its time and the
    /// present time are given.
    pub fn from_query_with(
        query: &Option<QueryMap>,
        did_url: &str,
        time: Option<Result<Timestamp, String>>,
        now: Timestamp,
    ) -> (outcome: DidCheqdResult<ResourceSelector>)
        ensures
            gives(outcome, selection(map_of(*query), reading_of(time), now), did_url@),
    {
        let q = match query {
            Some(q) => q,
            None => {
                return Err(
                    DidCheqdError::InvalidDidUrl(
                        joined("No resource path or query present: ", did_url),
                    ),
                );
            },
        };
        if let Some(resource_id) = q.get("resourceId") {
            return Ok(ResourceSelector::ExactId(resource_id.clone()));
        }
        let (name, resource_type) = match (q.get("resourceName"), q.get("resourceType")) {
            (Some(name), Some(resource_type)) => (name, resource_type),
            _ => {
                return Err(
                    DidCheqdError::InvalidDidUrl(
                        joined(
                            "Resolver can only resolve by exact resource ID or name+type combination ",
                            did_url,
                        ),
                    ),
                );
            },
        };
        let before = match time {
            Some(Ok(instant)) => instant,
            Some(Err(reason)) => {
                return Err(DidCheqdError::InvalidDidUrl(reason));
            },
            None => now,
        };
        Ok(
            ResourceSelector::NameTypeTime {
                name: name.clone(),
                resource_type: resource_type.clone(),
                before,
            },
        )
    }

    /// The selector of `query` where `now` is the present time. The
    /// `resourceVersionTime` parameter is read as an RFC 3339 date and time,
    /// to the nanosecond.
    pub fn from_query_at(query: &Option<QueryMap>, did_url: &str, now: Timestamp) -> (outcome:
        DidCheqdResult<ResourceSelector>)
        ensures
            gives(outcome, selection(map_of(*query), time_of(map_of(*query)), now), did_url@),
    {
        let time = match query {
            Some(q) => match q.get("resourceVersionTime") {
                Some(text) => Some(instant_from_reading(read_rfc3339(text.as_str()))),
                None => None,
            },
            None => None,
        };
        ResourceSelector::from_query_with(query, did_url, time, now)
    }

    /// The selector of `query`, with the time of the call standing in where
    /// the query gives none.
    pub fn from_query(query: &Option<QueryMap>, did_url: &str) -> (outcome: DidCheqdResult<
        ResourceSelector,
    >)
        ensures
            exists|now: Timestamp|
                gives(
                    outcome,
                    #[trigger] selection(map_of(*query), time_of(map_of(*query)), now),
                    did_url@,
                ),
    {
        let (seconds, nanos) = now_parts();
        ResourceSelector::from_query_at(query, did_url, Timestamp::from_parts(seconds, nanos))
    }
}

/// The instant that a reading stands for: the seconds and the nanoseconds
/// beyond them as one timestamp, or the reason that the reading gives.
pub fn instant_from_reading(reading: Result<(i64, u32), String>) -> (time: Result<
    Timestamp,
    String,
>)
    ensures
        match reading {
            Ok((seconds, nanos)) => time == Ok::<Timestamp, String>(instant_of(seconds, nanos)),
            Err(reason) => time == Err::<Timestamp, String>(reason),
        },
{
    match reading {
        Ok((seconds, nanos)) => Ok(Timestamp::from_parts(seconds, nanos)),
        Err(reason) => Err(reason),
    }
}

/// `chrono::DateTime::parse_from_rfc3339`; then, of the time read and taken
/// in UTC (`DateTime::to_utc`), the whole seconds since the Unix epoch
/// (`DateTime::timestamp`) and the nanoseconds beyond them
/// (`DateTime::timestamp_subsec_nanos`); or the words of the error.
///
/// Trusted: what comes back depends on `text` alone; it is what
/// `rfc3339_reading` names.
#[verifier::external_body]
fn read_rfc3339(text: &str) -> (reading: Result<(i64, u32), String>)
    ensures
        rfc3339_reading(text@) == match reading {
            Ok(parts) => Ok::<(i64, u32), Seq<char>>(parts),
            Err(reason) => Err::<(i64, u32), Seq<char>>(reason@),
        },
{
    match chrono::DateTime::parse_from_rfc3339(text) {
        Ok(time) => {
            let time = time.to_utc();
            Ok((time.timestamp(), time.timestamp_subsec_nanos()))
        },
        Err(error) => Err(error.to_string()),
    }
}

/// `chrono::Utc::now`: the whole seconds since the Unix epoch
/// (`DateTime::timestamp`) and the nanoseconds beyond them
/// (`DateTime::timestamp_subsec_nanos`). Nothing is known of what a clock
/// says.
#[verifier::external_body]
fn now_parts() -> (now: (i64, u32)) {
    let now = chrono::Utc::now();
    (now.timestamp(), now.timestamp_subsec_nanos())
}

} // verus!
