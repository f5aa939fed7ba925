//! The records that a cheqd node answers with, as plain values.

use vstd::prelude::*;

verus! {

/// The nanoseconds in a second.
pub const NANOS_PER_SECOND: i32 = 1_000_000_000;

/// A point in time: seconds since the Unix epoch, and nanoseconds beside them.
/// In normal form the nanoseconds lie in `0..NANOS_PER_SECOND`.
#[derive(Debug, Clone, Copy, PartialEq, Eq, Structural)]
pub struct Timestamp {
    pub seconds: i64,
    pub nanos: i32,
}

/// A key by which the subject of a DID can be verified.
#[derive(Debug, PartialEq, Eq)]
pub struct VerificationMethod {
    pub id: String,
    pub verification_method_type: String,
    pub controller: String,
    /// The key material, as JSON text or as a bare string.
    pub verification_material: String,
}

/// A service that the subject of a DID offers.
#[derive(Debug, PartialEq, Eq)]
pub struct Service {
    pub id: String,
    pub service_type: String,
    pub service_endpoint: Vec<String>,
    pub recipient_keys: Vec<String>,
    pub routing_keys: Vec<String>,
    pub accept: Vec<String>,
    pub priority: u32,
}

/// A DID document as the ledger holds it.
#[derive(Debug, PartialEq, Eq)]
pub struct CheqdDidDoc {
    pub context: Vec<String>,
    pub id: String,
    pub controller: Vec<String>,
    pub verification_method: Vec<VerificationMethod>,
    pub authentication: Vec<String>,
    pub assertion_method: Vec<String>,
    pub capability_invocation: Vec<String>,
    pub capability_delegation: Vec<String>,
    pub key_agreement: Vec<String>,
    pub service: Vec<Service>,
    pub also_known_as: Vec<String>,
}

/// What the ledger records about one version of a DID document.
#[derive(Debug, PartialEq, Eq)]
pub struct CheqdDidDocMetadata {
    pub created: Option<Timestamp>,
    pub updated: Option<Timestamp>,
    pub deactivated: bool,
    pub version_id: String,
    pub next_version_id: String,
    pub previous_version_id: String,
}

/// A DID document with what is recorded about it. Either part may be missing
/// from an answer.
#[derive(Debug, PartialEq, Eq)]
pub struct DidDocWithMetadata {
    pub did_doc: Option<CheqdDidDoc>,
    pub metadata: Option<CheqdDidDocMetadata>,
}

/// The payload of a resource.
#[derive(Debug, PartialEq, Eq)]
pub struct Resource {
    pub data: Vec<u8>,
}

/// What the ledger records about one revision of a resource.
#[derive(Debug, PartialEq, Eq)]
pub struct CheqdResourceMetadata {
    pub collection_id: String,
    pub id: String,
    pub name: String,
    pub version: String,
    pub resource_type: String,
    pub media_type: String,
    pub created: Option<Timestamp>,
    pub checksum: String,
    pub previous_version_id: String,
    pub next_version_id: String,
}

/// A resource with what is recorded about it. Either part may be missing from
/// an answer.
#[derive(Debug, PartialEq, Eq)]
pub struct ResourceWithMetadata {
    pub resource: Option<Resource>,
    pub metadata: Option<CheqdResourceMetadata>,
}

/// The least instant that a normal timestamp can hold, in nanoseconds.
pub open spec fn earliest_nanos() -> int {
    i64::MIN * 1_000_000_000
}

/// The greatest instant that a normal timestamp can hold, in nanoseconds.
pub open spec fn latest_nanos() -> int {
    i64::MAX * 1_000_000_000 + 999_999_999
}

/// The instant `total`, in nanoseconds, held to what a normal timestamp can
/// express.
pub open spec fn clamped(total: int) -> int {
    if total < earliest_nanos() {
        earliest_nanos()
    } else if total > latest_nanos() {
        latest_nanos()
    } else {
        total
    }
}

/// The normal timestamp of the instant `total`, in nanoseconds since the
/// epoch, or of the nearest instant that can be expressed: the whole
/// seconds, rounded down, and the nanoseconds that remain.
pub open spec fn normal_at(total: int) -> Timestamp {
    Timestamp {
        seconds: (clamped(total) / 1_000_000_000) as i64,
        nanos: (clamped(total) % 1_000_000_000) as i32,
    }
}

/// The normal timestamp of the instant `nanos` nanoseconds after the second
/// `seconds`.
pub open spec fn instant_of(seconds: i64, nanos: u32) -> Timestamp {
    normal_at(seconds * 1_000_000_000 + nanos)
}

impl Timestamp {
    /// The instant in nanoseconds since the epoch.
    pub open spec fn total_nanos(self) -> int {
        self.seconds * 1_000_000_000 + self.nanos
    }

    /// The instant in nanoseconds, held to what a normal timestamp can express.
    pub open spec fn clamped_nanos(self) -> int {
        clamped(self.total_nanos())
    }

    /// The normal form: the same instant, or the nearest that can be
    /// expressed, with the nanoseconds in `0..NANOS_PER_SECOND`.
    pub open spec fn normal_form(self) -> Timestamp {
        normal_at(self.total_nanos())
    }

    /// Whether this is an earlier instant than `other`.
    pub open spec fn is_before(self, other: Timestamp) -> bool {
        self.clamped_nanos() < other.clamped_nanos()
    }

    /// The timestamp in normal form.
    pub fn normalized(&self) -> (normal: Timestamp)
        ensures
            normal == self.normal_form(),
            0 <= normal.nanos < NANOS_PER_SECOND,
            normal.seconds * 1_000_000_000 + normal.nanos == self.clamped_nanos(),
    {
        let (seconds, nanos) = normalized_parts(self.seconds, self.nanos);
        Timestamp { seconds, nanos }
    }

    /// Whether this is an earlier instant than `other`, to the nanosecond.
    pub fn before(&self, other: &Timestamp) -> (yes: bool)
        ensures
            yes == self.is_before(*other),
    {
        let a = self.normalized();
        let b = other.normalized();
        proof {
            lemma_normal_forms_are_ordered(*self, *other);
        }
        a.seconds < b.seconds || (a.seconds == b.seconds && a.nanos < b.nanos)
    }

    /// The normal timestamp of the instant `nanos` nanoseconds after the
    /// second `seconds`. The nanoseconds may be more than a second.
    pub fn from_parts(seconds: i64, nanos: u32) -> (time: Timestamp)
        ensures
            time == instant_of(seconds, nanos),
    {
        let carry: i64 = (nanos / 1_000_000_000) as i64;
        let rest: i32 = (nanos % 1_000_000_000) as i32;
        match seconds.checked_add(carry) {
            Some(whole) => Timestamp { seconds: whole, nanos: rest },
            None => Timestamp { seconds: i64::MAX, nanos: 999_999_999 },
        }
    }
}

/// A timestamp whose nanoseconds lie in `0..NANOS_PER_SECOND` is its own
/// normal form.
pub proof fn lemma_normal_is_unchanged(time: Timestamp)
    requires
        0 <= time.nanos < NANOS_PER_SECOND,
    ensures
        time.normal_form() == time,
{
}

/// The normal form is normal: its nanoseconds lie in `0..NANOS_PER_SECOND`,
/// and it is its own normal form.
pub proof fn lemma_normal_form_is_normal(time: Timestamp)
    ensures
        0 <= time.normal_form().nanos < NANOS_PER_SECOND,
        time.normal_form().normal_form() == time.normal_form(),
{
    lemma_normal_is_unchanged(time.normal_form());
}

/// Normal forms are ordered as the instants that they stand for.
pub proof fn lemma_normal_forms_are_ordered(a: Timestamp, b: Timestamp)
    ensures
        a.clamped_nanos() < b.clamped_nanos() <==> a.normal_form().seconds < b.normal_form().seconds
            || (a.normal_form().seconds == b.normal_form().seconds && a.normal_form().nanos
            < b.normal_form().nanos),
{
}

/// `prost_types::Timestamp::normalized`, on the two fields of a timestamp.
///
/// Trusted: the result is the instant `seconds * 10^9 + nanos`, held between
/// `(i64::MIN, 0)` and `(i64::MAX, 999_999_999)`, split into whole seconds
/// (rounded down) and the nanoseconds that remain.
#[verifier::external_body]
fn normalized_parts(seconds: i64, nanos: i32) -> (normal: (i64, i32))
    ensures
        (Timestamp { seconds: normal.0, nanos: normal.1 }) == (Timestamp {
            seconds,
            nanos,
        }).normal_form(),
{
    let normal = prost_types::Timestamp { seconds, nanos }.normalized();
    (normal.seconds, normal.nanos)
}

} // verus!
