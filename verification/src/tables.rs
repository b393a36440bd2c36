//! The two ledger tables, each a two-level map addressed by an identity
//! and a content key. Entries are kept as a list in which the newest entry
//! for a pair stands first, so an insertion under an existing pair shadows
//! the older entry exactly as a map overwrite would.

use crate::types::{ContentAccessPolicy, ContentItem};
use vstd::prelude::*;

verus! {

/// One row of the content table.
#[derive(Clone, Debug, PartialEq, Eq)]
pub struct ContentEntry {
    pub owner: u64,
    pub key: Vec<u8>,
    pub item: ContentItem,
}

/// One row of the access-policy table.
#[derive(Clone, Debug, PartialEq, Eq)]
pub struct AccessEntry {
    pub subject: u64,
    pub key: Vec<u8>,
    pub policy: ContentAccessPolicy,
}

/// The content record stored for `(owner, key)`: the first matching row,
/// or `None` when the pair has never been written.
pub open spec fn content_lookup(rows: Seq<ContentEntry>, owner: u64, key: Seq<u8>) -> Option<
    ContentItem,
>
    decreases rows.len(),
{
    if rows.len() == 0 {
        None
    } else if rows[0].owner == owner && rows[0].key@ == key {
        Some(rows[0].item)
    } else {
        content_lookup(rows.drop_first(), owner, key)
    }
}

/// The policy stored for `(subject, key)`: the first matching row, or
/// `None` when the pair has never been written. Absence is observably
/// equivalent to `NotAccessible` for access decisions, but the two are
/// distinguished here because the lease transition treats them apart.
pub open spec fn access_lookup(rows: Seq<AccessEntry>, subject: u64, key: Seq<u8>) -> Option<
    ContentAccessPolicy,
>
    decreases rows.len(),
{
    if rows.len() == 0 {
        None
    } else if rows[0].subject == subject && rows[0].key@ == key {
        Some(rows[0].policy)
    } else {
        access_lookup(rows.drop_first(), subject, key)
    }
}

/// Byte-for-byte equality of two keys.
pub fn bytes_eq(a: &Vec<u8>, b: &Vec<u8>) -> (r: bool)
    ensures
        r == (a@ == b@),
{
    if a.len() != b.len() {
        return false;
    }
    let mut i: usize = 0;
    while i < a.len()
        invariant
            0 <= i <= a@.len(),
            a@.len() == b@.len(),
            forall|j: int| 0 <= j < i ==> a@[j] == b@[j],
        decreases a@.len() - i,
    {
        if a[i] != b[i] {
            return false;
        }
        i = i + 1;
    }
    proof {
        assert(a@ =~= b@);
    }
    true
}

/// The table of content records, keyed by `(owner, content_key)`. Content
/// is namespaced per owner: a lookup by key alone is deliberately not
/// offered.
#[derive(Clone, Debug, PartialEq, Eq)]
pub struct ContentTable {
    pub rows: Vec<ContentEntry>,
}

impl ContentTable {
    /// The record stored under `(owner, key)`, if any.
    pub open spec fn spec_get(self, owner: u64, key: Seq<u8>) -> Option<ContentItem> {
        content_lookup(self.rows@, owner, key)
    }

    /// Whether `(owner, key)` holds a record.
    pub open spec fn contains(self, owner: u64, key: Seq<u8>) -> bool {
        self.spec_get(owner, key) is Some
    }

    /// An empty table: no pair holds a record.
    pub fn new() -> (r: Self)
        ensures
            forall|o: u64, k: Seq<u8>| r.spec_get(o, k) is None,
    {
        ContentTable { rows: Vec::new() }
    }

    /// The record under `(owner, key)`, or `None` when the pair was never
    /// written.
    pub fn try_get(&self, owner: u64, key: &Vec<u8>) -> (r: Option<&ContentItem>)
        ensures
            match r {
                Some(item) => self.spec_get(owner, key@) == Some(*item),
                None => self.spec_get(owner, key@) is None,
            },
    {
        let mut i: usize = 0;
        proof {
            assert(self.rows@.skip(0) =~= self.rows@);
        }
        while i < self.rows.len()
            invariant
                0 <= i <= self.rows@.len(),
                content_lookup(self.rows@, owner, key@) == content_lookup(
                    self.rows@.skip(i as int),
                    owner,
                    key@,
                ),
            decreases self.rows@.len() - i,
        {
            let row = &self.rows[i];
            proof {
                assert(self.rows@.skip(i as int)[0] == self.rows@[i as int]);
                assert(self.rows@.skip(i as int).drop_first() =~= self.rows@.skip(i + 1));
            }
            if row.owner == owner && bytes_eq(&row.key, key) {
                return Some(&row.item);
            }
            i = i + 1;
        }
        proof {
            assert(self.rows@.skip(i as int) =~= Seq::<ContentEntry>::empty());
        }
        None
    }

    /// Writes `item` under `(owner, key)`, shadowing any earlier record for
    /// the pair and leaving every other pair unchanged.
    pub fn insert(&mut self, owner: u64, key: Vec<u8>, item: ContentItem)
        ensures
            final(self).spec_get(owner, key@) == Some(item),
            forall|o: u64, k: Seq<u8>|
                !(o == owner && k == key@) ==> final(self).spec_get(o, k) == old(self).spec_get(
                    o,
                    k,
                ),
    {
        let ghost key_view = key@;
        self.rows.insert(0, ContentEntry { owner, key, item });
        proof {
            assert(final(self).rows@.drop_first() =~= old(self).rows@);
            assert(final(self).rows@[0].owner == owner && final(self).rows@[0].key@ == key_view);
        }
    }
}

/// The table of access policies, keyed by `(subject, content_key)`.
#[derive(Clone, Debug, PartialEq, Eq)]
pub struct AccessPolicyTable {
    pub rows: Vec<AccessEntry>,
}

impl AccessPolicyTable {
    /// The policy stored under `(subject, key)`, if any.
    pub open spec fn spec_get(self, subject: u64, key: Seq<u8>) -> Option<ContentAccessPolicy> {
        access_lookup(self.rows@, subject, key)
    }

    /// An empty table: no pair holds a policy.
    pub fn new() -> (r: Self)
        ensures
            forall|s: u64, k: Seq<u8>| r.spec_get(s, k) is None,
    {
        AccessPolicyTable { rows: Vec::new() }
    }

    /// The policy under `(subject, key)`, or `None` when the pair was never
    /// written.
    pub fn try_get(&self, subject: u64, key: &Vec<u8>) -> (r: Option<ContentAccessPolicy>)
        ensures
            r == self.spec_get(subject, key@),
    {
        let mut i: usize = 0;
        proof {
            assert(self.rows@.skip(0) =~= self.rows@);
        }
        while i < self.rows.len()
            invariant
                0 <= i <= self.rows@.len(),
                access_lookup(self.rows@, subject, key@) == access_lookup(
                    self.rows@.skip(i as int),
                    subject,
                    key@,
                ),
            decreases self.rows@.len() - i,
        {
            let row = &self.rows[i];
            proof {
                assert(self.rows@.skip(i as int)[0] == self.rows@[i as int]);
                assert(self.rows@.skip(i as int).drop_first() =~= self.rows@.skip(i + 1));
            }
            if row.subject == subject && bytes_eq(&row.key, key) {
                return Some(row.policy);
            }
            i = i + 1;
        }
        proof {
            assert(self.rows@.skip(i as int) =~= Seq::<AccessEntry>::empty());
        }
        None
    }

    /// Writes `policy` under `(subject, key)`, shadowing any earlier policy
    /// for the pair and leaving every other pair unchanged.
    pub fn insert(&mut self, subject: u64, key: Vec<u8>, policy: ContentAccessPolicy)
        ensures
            final(self).spec_get(subject, key@) == Some(policy),
            forall|s: u64, k: Seq<u8>|
                !(s == subject && k == key@) ==> final(self).spec_get(s, k) == old(self).spec_get(
                    s,
                    k,
                ),
    {
        let ghost key_view = key@;
        self.rows.insert(0, AccessEntry { subject, key, policy });
        proof {
            assert(final(self).rows@.drop_first() =~= old(self).rows@);
            assert(final(self).rows@[0].subject == subject && final(self).rows@[0].key@
                == key_view);
        }
    }
}

} // verus!
