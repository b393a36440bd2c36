use tribal::keys::{
    encode_u128_le, encode_u32_le, encode_u64_be, generate_content_key, generate_random_number,
    randomness_input,
};
use tribal::pallet::Pallet;
use tribal::types::{ContentAccessPolicy, Error, Event};

fn rand_bytes(n: u32) -> Vec<u8> {
    n.to_le_bytes().to_vec()
}

#[test]
fn it_works_for_default_value() {
    let mut pallet = Pallet::new();
    assert!(pallet.do_something(1, 42).is_ok());
    assert_eq!(pallet.something(), Some(42));
}

#[test]
fn correct_error_for_none_value() {
    let mut pallet = Pallet::new();
    assert_eq!(pallet.cause_error(1), Err(Error::NoneValue));
    assert_eq!(pallet.something(), None);
}

#[test]
fn create_content_ensure_exists() {
    let mut pallet = Pallet::new();
    let test_fingerprint = b"OMG";

    assert!(pallet.create_content(7, test_fingerprint.to_vec(), 1, 1, &rand_bytes(5)).is_ok());

    let first_event = pallet.events.first().unwrap();
    match first_event {
        Event::CreateContentKey(key, who) => {
            assert_eq!(*who, 7);
            let stored = pallet.content_storage.try_get(7, key).unwrap();
            assert_eq!(stored.fingerprint, test_fingerprint.to_vec());
        }
        other => panic!("expected a key-creation event, got {:?}", other),
    }
}

#[test]
fn derived_keys_have_no_collisions() {
    let mut keys: Vec<Vec<u8>> = Vec::new();
    for seed in 0..10_000u32 {
        keys.push(generate_content_key(&rand_bytes(seed)));
    }
    keys.sort();
    for pair in keys.windows(2) {
        assert_ne!(pair[0], pair[1]);
    }
}

#[test]
fn create_content_twice_keeps_both_records() {
    let mut pallet = Pallet::new();
    let r1 = rand_bytes(100);
    let r2 = rand_bytes(200);
    assert!(pallet.create_content(3, b"OMG".to_vec(), 10, 1, &r1).is_ok());
    assert!(pallet.create_content(3, b"OMG".to_vec(), 11, 2, &r2).is_ok());

    let k1 = generate_content_key(&r1);
    let k2 = generate_content_key(&r2);
    assert_ne!(k1, k2);

    let item1 = pallet.content_storage.try_get(3, &k1).unwrap();
    let item2 = pallet.content_storage.try_get(3, &k2).unwrap();
    assert_eq!(item1.fingerprint, b"OMG".to_vec());
    assert_eq!(item2.fingerprint, b"OMG".to_vec());
    assert_eq!(item1.created_date, 10);
    assert_eq!(item2.created_date, 11);
}

#[test]
fn creation_assigns_owner_policy() {
    let mut pallet = Pallet::new();
    let rand = rand_bytes(42);
    assert!(pallet.create_content(5, b"hash".to_vec(), 7, 3, &rand).is_ok());

    let key = generate_content_key(&rand);
    assert_eq!(
        pallet.content_access_storage.try_get(5, &key),
        Some(ContentAccessPolicy::ContentOwner)
    );
}

#[test]
fn creation_records_sequence_marker_and_time() {
    let mut pallet = Pallet::new();
    let rand = rand_bytes(42);
    assert!(pallet.create_content(5, b"hash".to_vec(), 1_000_000_007, 0x0102030405060708, &rand).is_ok());

    let key = generate_content_key(&rand);
    let item = pallet.content_storage.try_get(5, &key).unwrap();
    assert_eq!(item.content_key, key);
    assert_eq!(item.created_date, 1_000_000_007);
    // the sequence counter's little-endian encoding, stored reversed
    assert_eq!(item.block_number, vec![1, 2, 3, 4, 5, 6, 7, 8]);
}

#[test]
fn creation_emits_both_notifications() {
    let mut pallet = Pallet::new();
    let rand = rand_bytes(8);
    assert!(pallet.create_content(9, b"fp".to_vec(), 1, 1, &rand).is_ok());

    let key = generate_content_key(&rand);
    assert_eq!(pallet.events.len(), 2);
    assert_eq!(pallet.events[0], Event::CreateContentKey(key.clone(), 9));
    assert_eq!(
        pallet.events[1],
        Event::ContentAccessPolicyChange(9, key, ContentAccessPolicy::ContentOwner)
    );
}

#[test]
fn lease_unknown_content_fails_not_found() {
    let mut pallet = Pallet::new();
    let unknown_key = vec![0u8; 16];
    assert_eq!(pallet.lease_content(1, unknown_key, 2), Err(Error::ContentNotFound));
    assert!(pallet.events.is_empty());
}

#[test]
fn lease_under_wrong_owner_fails_not_found() {
    let mut pallet = Pallet::new();
    let rand = rand_bytes(77);
    assert!(pallet.create_content(1, b"fp".to_vec(), 1, 1, &rand).is_ok());
    let key = generate_content_key(&rand);

    // content exists, but only under owner 1's bucket
    assert_eq!(pallet.lease_content(2, key, 3), Err(Error::ContentNotFound));
}

#[test]
fn lease_denied_after_explicit_not_accessible() {
    let mut pallet = Pallet::new();
    let rand = rand_bytes(77);
    assert!(pallet.create_content(1, b"fp".to_vec(), 1, 1, &rand).is_ok());
    let key = generate_content_key(&rand);

    pallet.content_access_storage.insert(2, key.clone(), ContentAccessPolicy::NotAccessible);
    let events_before = pallet.events.len();
    assert_eq!(pallet.lease_content(1, key, 2), Err(Error::ContentNotAccessible));
    assert_eq!(pallet.events.len(), events_before);
}

#[test]
fn lease_guards_against_double_grant() {
    let mut pallet = Pallet::new();
    let rand = rand_bytes(77);
    assert!(pallet.create_content(1, b"fp".to_vec(), 1, 1, &rand).is_ok());
    let key = generate_content_key(&rand);

    // the owner already holds a policy entry for the key
    assert_eq!(
        pallet.lease_content(1, key.clone(), 1),
        Err(Error::ContentAlreadyAccessibleByAccount)
    );

    // an assigned lease cannot be granted a second time
    assert!(pallet.lease_content(1, key.clone(), 2).is_ok());
    assert_eq!(
        pallet.lease_content(1, key, 2),
        Err(Error::ContentAlreadyAccessibleByAccount)
    );
}

#[test]
fn lease_success_assigns_policy_and_notifies_once() {
    let mut pallet = Pallet::new();
    let rand = rand_bytes(13);
    assert!(pallet.create_content(1, b"fp".to_vec(), 1, 1, &rand).is_ok());
    let key = generate_content_key(&rand);

    let events_before = pallet.events.len();
    assert!(pallet.lease_content(1, key.clone(), 2).is_ok());

    assert_eq!(
        pallet.content_access_storage.try_get(2, &key),
        Some(ContentAccessPolicy::ContentLeaseAssigned)
    );
    assert_eq!(pallet.events.len(), events_before + 1);
    assert_eq!(
        pallet.events[events_before],
        Event::ContentAccessPolicyChange(2, key, ContentAccessPolicy::ContentLeaseAssigned)
    );
}

#[test]
fn counter_overflow_leaves_stored_value() {
    let mut pallet = Pallet::new();
    assert!(pallet.do_something(1, u32::MAX).is_ok());
    assert_eq!(pallet.cause_error(1), Err(Error::StorageOverflow));
    assert_eq!(pallet.something(), Some(u32::MAX));
}

#[test]
fn counter_increments_below_maximum() {
    let mut pallet = Pallet::new();
    assert!(pallet.do_something(1, 41).is_ok());
    assert!(pallet.cause_error(1).is_ok());
    assert_eq!(pallet.something(), Some(42));
}

#[test]
fn default_policy_is_not_accessible() {
    assert_eq!(ContentAccessPolicy::default(), ContentAccessPolicy::NotAccessible);
}

#[test]
fn content_key_matches_direct_derivation() {
    // five bytes of randomness: only the leading four name the identifier
    let randomness = vec![1u8, 2, 3, 4, 99];
    let expected = nuuid::Uuid::new_v5(nuuid::NAMESPACE_DNS, &[1, 2, 3, 4]).to_bytes().to_vec();
    assert_eq!(generate_content_key(&randomness), expected);
    assert_eq!(expected.len(), 16);
}

#[test]
fn random_number_reads_leading_word() {
    let randomness = vec![0x78u8, 0x56, 0x34, 0x12, 0xff, 0xff];
    assert_eq!(generate_random_number(&randomness), 0x1234_5678);
    assert_eq!(encode_u32_le(0x1234_5678), vec![0x78, 0x56, 0x34, 0x12]);
}

#[test]
fn sequence_marker_reverses_wire_order() {
    assert_eq!(encode_u64_be(1), vec![0, 0, 0, 0, 0, 0, 0, 1]);
    assert_eq!(
        encode_u64_be(0x1122_3344_5566_7788),
        vec![0x11, 0x22, 0x33, 0x44, 0x55, 0x66, 0x77, 0x88]
    );
    assert_eq!(encode_u64_be(1), {
        let mut le = 1u64.to_le_bytes().to_vec();
        le.reverse();
        le
    });
}

#[test]
fn randomness_input_appends_seed_bytes() {
    let module_id = b"tribal_p".to_vec();
    let input = randomness_input(&module_id, 0x0102);
    let mut expected = module_id.clone();
    expected.extend_from_slice(&0x0102u128.to_le_bytes());
    assert_eq!(input, expected);
    assert_eq!(encode_u128_le(0x0102), 0x0102u128.to_le_bytes().to_vec());
}

#[test]
fn table_insert_shadows_previous_entry() {
    let mut pallet = Pallet::new();
    let key = vec![5u8, 6, 7];
    pallet.content_access_storage.insert(1, key.clone(), ContentAccessPolicy::NotAccessible);
    pallet.content_access_storage.insert(1, key.clone(), ContentAccessPolicy::ContentLeaseRevoked);
    assert_eq!(
        pallet.content_access_storage.try_get(1, &key),
        Some(ContentAccessPolicy::ContentLeaseRevoked)
    );
    assert_eq!(pallet.content_access_storage.try_get(2, &key), None);
}
