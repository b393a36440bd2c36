//! The ledger itself and its dispatchable operations: content
//! registration, lease assignment, and the two generic counter
//! dispatchables. Every operation either succeeds with exactly the table
//! writes and notifications stated in its contract, or reports one named
//! error and leaves the ledger untouched.

use crate::keys::{derived_content_key, encode_u64_be, generate_content_key, u64_be_bytes};
use crate::tables::{AccessPolicyTable, ContentTable};
use crate::types::{
    is_create_key_event, is_policy_change_event, ContentAccessPolicy, ContentItem, Error, Event,
};
use vstd::prelude::*;

verus! {

/// The ledger: the two tables, the generic counter, and the log of
/// emitted notifications.
pub struct Pallet {
    pub content_storage: ContentTable,
    pub content_access_storage: AccessPolicyTable,
    pub something: Option<u32>,
    pub events: Vec<Event>,
}

/// What a successful content registration by `who` leaves behind, given
/// the key `key` the randomness draw derived: a fresh immutable content
/// record and an owner policy under `(who, key)`, every other table pair
/// untouched, and the two notifications appended in order.
pub open spec fn create_content_post(
    pre: Pallet,
    post: Pallet,
    who: u64,
    fingerprint: Seq<u8>,
    time: u128,
    block_number: u64,
    key: Seq<u8>,
) -> bool {
    &&& (post.content_storage.spec_get(who, key) matches Some(item) && {
        &&& item.content_key@ == key
        &&& item.fingerprint@ == fingerprint
        &&& item.block_number@ == u64_be_bytes(block_number)
        &&& item.created_date == time
    })
    &&& forall|o: u64, k: Seq<u8>|
        !(o == who && k == key) ==> post.content_storage.spec_get(o, k)
            == pre.content_storage.spec_get(o, k)
    &&& post.content_access_storage.spec_get(who, key) == Some(ContentAccessPolicy::ContentOwner)
    &&& forall|s: u64, k: Seq<u8>|
        !(s == who && k == key) ==> post.content_access_storage.spec_get(s, k)
            == pre.content_access_storage.spec_get(s, k)
    &&& post.something == pre.something
    &&& post.events@.len() == pre.events@.len() + 2
    &&& forall|i: int| 0 <= i < pre.events@.len() ==> post.events@[i] == pre.events@[i]
    &&& is_create_key_event(post.events@[pre.events@.len() as int], key, who)
    &&& is_policy_change_event(
        post.events@[pre.events@.len() as int + 1],
        who,
        key,
        ContentAccessPolicy::ContentOwner,
    )
}

/// What a successful lease grant leaves behind: the target subject's
/// policy for `key` becomes `ContentLeaseAssigned`, every other policy
/// pair, the content table and the counter are untouched, and exactly one
/// policy-change notification is appended.
pub open spec fn lease_content_post(
    pre: Pallet,
    post: Pallet,
    target: u64,
    key: Seq<u8>,
) -> bool {
    &&& post.content_access_storage.spec_get(target, key) == Some(
        ContentAccessPolicy::ContentLeaseAssigned,
    )
    &&& forall|s: u64, k: Seq<u8>|
        !(s == target && k == key) ==> post.content_access_storage.spec_get(s, k)
            == pre.content_access_storage.spec_get(s, k)
    &&& post.content_storage == pre.content_storage
    &&& post.something == pre.something
    &&& post.events@.len() == pre.events@.len() + 1
    &&& forall|i: int| 0 <= i < pre.events@.len() ==> post.events@[i] == pre.events@[i]
    &&& is_policy_change_event(
        post.events@[pre.events@.len() as int],
        target,
        key,
        ContentAccessPolicy::ContentLeaseAssigned,
    )
}

/// Creation is never idempotent and never overwrites: two successful
/// registrations by the same caller — with the same fingerprint or not —
/// whose randomness draws derived distinct keys leave two distinct content
/// records, one under each key, each carrying its own fingerprint and both
/// owned by the caller.
pub proof fn lemma_create_twice_distinct_records(
    p0: Pallet,
    p1: Pallet,
    p2: Pallet,
    who: u64,
    fp1: Seq<u8>,
    fp2: Seq<u8>,
    t1: u128,
    t2: u128,
    bn1: u64,
    bn2: u64,
    key1: Seq<u8>,
    key2: Seq<u8>,
)
    requires
        key1 != key2,
        create_content_post(p0, p1, who, fp1, t1, bn1, key1),
        create_content_post(p1, p2, who, fp2, t2, bn2, key2),
    ensures
        (p2.content_storage.spec_get(who, key1) matches Some(item) && item.fingerprint@ == fp1
            && item.content_key@ == key1),
        (p2.content_storage.spec_get(who, key2) matches Some(item) && item.fingerprint@ == fp2
            && item.content_key@ == key2),
        p2.content_access_storage.spec_get(who, key1) == Some(ContentAccessPolicy::ContentOwner),
        p2.content_access_storage.spec_get(who, key2) == Some(ContentAccessPolicy::ContentOwner),
{
}

/// Copies a key so the same bytes can be written under several rows.
fn clone_bytes(v: &Vec<u8>) -> (r: Vec<u8>)
    ensures
        r@ == v@,
{
    let mut r: Vec<u8> = Vec::new();
    let mut i: usize = 0;
    while i < v.len()
        invariant
            0 <= i <= v@.len(),
            r@ == v@.subrange(0, i as int),
        decreases v@.len() - i,
    {
        r.push(v[i]);
        proof {
            assert(r@ =~= v@.subrange(0, i + 1));
        }
        i = i + 1;
    }
    proof {
        assert(r@ =~= v@);
    }
    r
}

impl Pallet {
    /// A fresh ledger: both tables empty, no counter value, no events.
    pub fn new() -> (r: Self)
        ensures
            forall|o: u64, k: Seq<u8>| r.content_storage.spec_get(o, k) is None,
            forall|s: u64, k: Seq<u8>| r.content_access_storage.spec_get(s, k) is None,
            r.something is None,
            r.events@.len() == 0,
    {
        Pallet {
            content_storage: ContentTable::new(),
            content_access_storage: AccessPolicyTable::new(),
            something: None,
            events: Vec::new(),
        }
    }

    /// The stored counter value, if one was ever stored.
    pub fn something(&self) -> (r: Option<u32>)
        ensures
            r == self.something,
    {
        self.something
    }

    /// Registers content for the authenticated caller `who`: derives a
    /// fresh key from the randomness draw, records the content under
    /// `(who, key)` with the reversed byte encoding of the sequence
    /// counter as its ordering witness, makes `who` the content's owner,
    /// and emits the two notifications. Success is unconditional: no
    /// duplicate check is made, so a repeated fingerprint simply gains a
    /// second record under a second key.
    ///
    /// `time` is the current time from the host's time source;
    /// `block_number` is the host's sequence counter; `randomness` is the
    /// randomness beacon's output for this derivation, at least four bytes
    /// by the beacon's guarantee.
    pub fn create_content(
        &mut self,
        who: u64,
        fingerprint: Vec<u8>,
        time: u128,
        block_number: u64,
        randomness: &Vec<u8>,
    ) -> (r: Result<(), Error>)
        requires
            randomness@.len() >= 4,
        ensures
            r is Ok,
            derived_content_key(randomness@).len() == 16,
            create_content_post(
                *old(self),
                *final(self),
                who,
                fingerprint@,
                time,
                block_number,
                derived_content_key(randomness@),
            ),
    {
        let content_key: Vec<u8> = generate_content_key(randomness);

        let bn: Vec<u8> = encode_u64_be(block_number);

        let item = ContentItem {
            content_key: clone_bytes(&content_key),
            fingerprint,
            block_number: bn,
            created_date: time,
        };
        self.content_storage.insert(who, clone_bytes(&content_key), item);
        self.events.push(Event::CreateContentKey(clone_bytes(&content_key), who));

        self.content_access_storage.insert(
            who,
            clone_bytes(&content_key),
            ContentAccessPolicy::ContentOwner,
        );
        self.events.push(
            Event::ContentAccessPolicyChange(who, content_key, ContentAccessPolicy::ContentOwner),
        );
        Ok(())
    }

    /// Grants `tribe_public_key` a lease on the content that `who`
    /// registered under `content_key`. The transition is checked before
    /// anything is written, so a failed call leaves the ledger exactly as
    /// it was: `ContentNotFound` when `(who, content_key)` holds no
    /// record; `ContentNotAccessible` when the target's policy for the key
    /// is an explicit prior denial; `ContentAlreadyAccessibleByAccount`
    /// when the target holds any other policy for the key. Only a
    /// genuinely absent policy slot is leased.
    pub fn lease_content(
        &mut self,
        who: u64,
        content_key: Vec<u8>,
        tribe_public_key: u64,
    ) -> (r: Result<(), Error>)
        ensures
            old(self).content_storage.spec_get(who, content_key@) is None ==> r == Err::<
                (),
                Error,
            >(Error::ContentNotFound) && *final(self) == *old(self),
            old(self).content_storage.spec_get(who, content_key@) is Some
                && old(self).content_access_storage.spec_get(tribe_public_key, content_key@)
                == Some(ContentAccessPolicy::NotAccessible) ==> r == Err::<(), Error>(
                Error::ContentNotAccessible,
            ) && *final(self) == *old(self),
            old(self).content_storage.spec_get(who, content_key@) is Some
                && (old(self).content_access_storage.spec_get(tribe_public_key, content_key@)
                matches Some(p) && p != ContentAccessPolicy::NotAccessible) ==> r == Err::<
                (),
                Error,
            >(Error::ContentAlreadyAccessibleByAccount) && *final(self) == *old(self),
            old(self).content_storage.spec_get(who, content_key@) is Some
                && old(self).content_access_storage.spec_get(tribe_public_key, content_key@)
                is None ==> r is Ok && lease_content_post(
                *old(self),
                *final(self),
                tribe_public_key,
                content_key@,
            ),
    {
        if self.content_storage.try_get(who, &content_key).is_none() {
            return Err(Error::ContentNotFound);
        }

        match self.content_access_storage.try_get(tribe_public_key, &content_key) {
            Some(policy) => {
                if policy == ContentAccessPolicy::NotAccessible {
                    return Err(Error::ContentNotAccessible);
                }
                return Err(Error::ContentAlreadyAccessibleByAccount);
            },
            None => {},
        }

        self.content_access_storage.insert(
            tribe_public_key,
            clone_bytes(&content_key),
            ContentAccessPolicy::ContentLeaseAssigned,
        );
        self.events.push(
            Event::ContentAccessPolicyChange(
                tribe_public_key,
                content_key,
                ContentAccessPolicy::ContentLeaseAssigned,
            ),
        );
        Ok(())
    }

    /// Stores `something` as the counter value for the authenticated
    /// caller `who` and emits a notification; always succeeds.
    pub fn do_something(&mut self, who: u64, something: u32) -> (r: Result<(), Error>)
        ensures
            r is Ok,
            final(self).something == Some(something),
            final(self).content_storage == old(self).content_storage,
            final(self).content_access_storage == old(self).content_access_storage,
            final(self).events@.len() == old(self).events@.len() + 1,
            forall|i: int|
                0 <= i < old(self).events@.len() ==> final(self).events@[i]
                    == old(self).events@[i],
            (final(self).events@[old(self).events@.len() as int] matches Event::SomethingStored(
                v,
                w,
            ) && v == something && w == who),
    {
        self.something = Some(something);
        self.events.push(Event::SomethingStored(something, who));
        Ok(())
    }

    /// Increments the stored counter value: `NoneValue` when no value was
    /// ever stored, `StorageOverflow` when the stored value is already the
    /// largest, and in either failure the stored value is unchanged; no
    /// notification is emitted either way.
    pub fn cause_error(&mut self, _who: u64) -> (r: Result<(), Error>)
        ensures
            old(self).something is None ==> r == Err::<(), Error>(Error::NoneValue) && *final(self)
                == *old(self),
            old(self).something == Some(u32::MAX) ==> r == Err::<(), Error>(Error::StorageOverflow)
                && *final(self) == *old(self),
            old(self).something is Some && old(self).something->0 < u32::MAX ==> r is Ok
                && final(self).something == Some((old(self).something->0 + 1) as u32),
            r is Ok ==> final(self).content_storage == old(self).content_storage
                && final(self).content_access_storage == old(self).content_access_storage
                && final(self).events@ == old(self).events@,
    {
        match self.something {
            None => Err(Error::NoneValue),
            Some(old_value) => {
                if old_value == u32::MAX {
                    return Err(Error::StorageOverflow);
                }
                let new_value = old_value + 1;
                self.something = Some(new_value);
                Ok(())
            },
        }
    }
}

} // verus!
