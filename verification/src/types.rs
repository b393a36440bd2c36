//! The data model: content records, lease records, access policies,
//! the event surface and the error surface of the ledger.

use vstd::prelude::*;

verus! {

/// One registered piece of content. Once inserted under an
/// `(owner, content_key)` pair the record is never mutated.
#[derive(Clone, Debug, PartialEq, Eq)]
pub struct ContentItem {
    /// The derived key the record is stored under; globally unique in
    /// practice, assigned at creation.
    pub content_key: Vec<u8>,
    /// Caller-supplied opaque descriptor of the content (for example a
    /// hash); not validated for uniqueness here.
    pub fingerprint: Vec<u8>,
    /// The host's monotonic sequence counter at creation time, byte-encoded
    /// in reversed (big-endian) order as a tamper-evident ordering witness.
    pub block_number: Vec<u8>,
    /// Creation time in nanoseconds.
    pub created_date: u128,
}

/// Pairs a content record with a lease timestamp; a reserved extension
/// point for lease metadata, not yet read or written by any operation.
#[derive(Clone, Debug, PartialEq, Eq)]
pub struct LeaseItem {
    pub content_info: ContentItem,
    pub lease_date: u128,
}

/// The access-policy state attached to a `(subject, content_key)` pair.
/// A missing table entry reads as `NotAccessible`; `ContentLeaseRevoked`
/// is declared for forward compatibility and produced by no transition.
#[derive(Clone, Copy, Debug, PartialEq, Eq, Structural)]
pub enum ContentAccessPolicy {
    NotAccessible,
    ContentOwner,
    ContentLeaseAssigned,
    ContentLeaseRevoked,
}

impl core::default::Default for ContentAccessPolicy {
    fn default() -> (r: Self)
        ensures
            r == ContentAccessPolicy::NotAccessible,
    {
        ContentAccessPolicy::NotAccessible
    }
}

/// Notifications the ledger emits for external observers; delivery is
/// fire-and-forget, the ledger only appends them to its event log.
#[derive(Clone, Debug, PartialEq, Eq)]
pub enum Event {
    /// A value was stored by the generic dispatchable. [something, who]
    SomethingStored(u32, u64),
    /// A content key was derived and registered. [content_key, who]
    CreateContentKey(Vec<u8>, u64),
    /// An access policy was written for a subject. [who, content_key, policy]
    ContentAccessPolicyChange(u64, Vec<u8>, ContentAccessPolicy),
}

/// The errors an operation can report; each is explicit and none is ever
/// downgraded to a silent no-op.
#[derive(Clone, Copy, Debug, PartialEq, Eq, Structural)]
pub enum Error {
    /// The generic counter has no stored value.
    NoneValue,
    /// Incrementing the generic counter would overflow.
    StorageOverflow,
    /// The host's sequence counter could not be read.
    CouldNotDetermineBlockNumber,
    /// The referenced `(owner, content_key)` pair has no content record.
    ContentNotFound,
    /// The target subject's policy entry is explicitly `NotAccessible`.
    ContentNotAccessible,
    /// The target subject already has a non-absent policy entry.
    ContentAlreadyAccessibleByAccount,
}

/// Holds when `e` announces that `key` was registered by `who`.
pub open spec fn is_create_key_event(e: Event, key: Seq<u8>, who: u64) -> bool {
    e matches Event::CreateContentKey(k, w) && k@ == key && w == who
}

/// Holds when `e` announces that `who`'s policy for `key` became `policy`.
pub open spec fn is_policy_change_event(
    e: Event,
    who: u64,
    key: Seq<u8>,
    policy: ContentAccessPolicy,
) -> bool {
    e matches Event::ContentAccessPolicyChange(w, k, p) && w == who && k@ == key && p == policy
}

} // verus!
