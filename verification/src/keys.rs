//! Content-key derivation: a random seed drawn from the host's randomness
//! beacon is truncated to a 32-bit number whose little-endian bytes name a
//! version-5 identifier under the DNS namespace; the identifier's sixteen
//! bytes are the content key.

use vstd::prelude::*;

verus! {

/// The byte form of the version-5 (name-based) identifier that the DNS
/// namespace assigns to `name`; a function of the name bytes alone.
pub uninterp spec fn uuid5_dns_of(name: Seq<u8>) -> Seq<u8>;

/// Relies on `nuuid::Uuid::new_v5` with `nuuid::NAMESPACE_DNS`: a version-5
/// identifier is a digest of the namespace and the name bytes alone, and
/// `Uuid::to_bytes` yields its sixteen bytes.
#[verifier::external_body]
fn uuid_v5_dns(name: &Vec<u8>) -> (r: Vec<u8>)
    ensures
        r@ == uuid5_dns_of(name@),
        r@.len() == 16,
{
    nuuid::Uuid::new_v5(nuuid::NAMESPACE_DNS, name.as_slice()).to_bytes().to_vec()
}

/// The `u32` read from the first four bytes of `s`, little-endian, as the
/// host's codec lays a `u32` out on the wire.
pub open spec fn u32_from_le(s: Seq<u8>) -> u32
    recommends
        s.len() >= 4,
{
    (s[0] + s[1] * 0x100 + s[2] * 0x1_0000 + s[3] * 0x100_0000) as u32
}

/// The four little-endian bytes of `n`.
pub open spec fn u32_le_bytes(n: u32) -> Seq<u8> {
    seq![
        (n % 0x100) as u8,
        ((n / 0x100) % 0x100) as u8,
        ((n / 0x1_0000) % 0x100) as u8,
        ((n / 0x100_0000) % 0x100) as u8,
    ]
}

/// The sixteen little-endian bytes of `n`.
pub open spec fn u128_le_bytes(n: u128) -> Seq<u8> {
    seq![
        (n % 0x100) as u8,
        ((n / 0x100) % 0x100) as u8,
        ((n / 0x1_0000) % 0x100) as u8,
        ((n / 0x100_0000) % 0x100) as u8,
        ((n / 0x1_0000_0000) % 0x100) as u8,
        ((n / 0x100_0000_0000) % 0x100) as u8,
        ((n / 0x1_0000_0000_0000) % 0x100) as u8,
        ((n / 0x100_0000_0000_0000) % 0x100) as u8,
        ((n / 0x1_0000_0000_0000_0000) % 0x100) as u8,
        ((n / 0x100_0000_0000_0000_0000) % 0x100) as u8,
        ((n / 0x1_0000_0000_0000_0000_0000) % 0x100) as u8,
        ((n / 0x100_0000_0000_0000_0000_0000) % 0x100) as u8,
        ((n / 0x1_0000_0000_0000_0000_0000_0000) % 0x100) as u8,
        ((n / 0x100_0000_0000_0000_0000_0000_0000) % 0x100) as u8,
        ((n / 0x1_0000_0000_0000_0000_0000_0000_0000) % 0x100) as u8,
        ((n / 0x100_0000_0000_0000_0000_0000_0000_0000) % 0x100) as u8,
    ]
}

/// The eight big-endian bytes of `n`: its little-endian encoding reversed,
/// the form the sequence marker is stored in.
pub open spec fn u64_be_bytes(n: u64) -> Seq<u8> {
    seq![
        (n / 0x100_0000_0000_0000) as u8,
        ((n / 0x1_0000_0000_0000) % 0x100) as u8,
        ((n / 0x100_0000_0000) % 0x100) as u8,
        ((n / 0x1_0000_0000) % 0x100) as u8,
        ((n / 0x100_0000) % 0x100) as u8,
        ((n / 0x1_0000) % 0x100) as u8,
        ((n / 0x100) % 0x100) as u8,
        (n % 0x100) as u8,
    ]
}

/// The content key that a draw `randomness` from the randomness beacon
/// derives: the version-5 identifier named by the little-endian bytes of
/// the draw's leading 32-bit number.
pub open spec fn derived_content_key(randomness: Seq<u8>) -> Seq<u8> {
    uuid5_dns_of(u32_le_bytes(u32_from_le(randomness)))
}

/// Truncates a draw from the randomness beacon to its leading 32-bit
/// number. A draw shorter than four bytes is a fatal misconfiguration of
/// the beacon, not a runtime error, so it is excluded outright.
pub fn generate_random_number(randomness: &Vec<u8>) -> (r: u32)
    requires
        randomness@.len() >= 4,
    ensures
        r == u32_from_le(randomness@),
{
    let b0 = randomness[0] as u32;
    let b1 = randomness[1] as u32;
    let b2 = randomness[2] as u32;
    let b3 = randomness[3] as u32;
    b0 + b1 * 0x100 + b2 * 0x1_0000 + b3 * 0x100_0000
}

/// The four little-endian bytes of `n` as a vector.
pub fn encode_u32_le(n: u32) -> (r: Vec<u8>)
    ensures
        r@ == u32_le_bytes(n),
{
    let mut v: Vec<u8> = Vec::new();
    v.push((n % 0x100) as u8);
    v.push(((n / 0x100) % 0x100) as u8);
    v.push(((n / 0x1_0000) % 0x100) as u8);
    v.push(((n / 0x100_0000) % 0x100) as u8);
    proof {
        assert(v@ =~= u32_le_bytes(n));
    }
    v
}

/// The eight big-endian bytes of `n` as a vector: the sequence-marker
/// encoding, the host codec's little-endian bytes in reversed order.
pub fn encode_u64_be(n: u64) -> (r: Vec<u8>)
    ensures
        r@ == u64_be_bytes(n),
{
    let mut v: Vec<u8> = Vec::new();
    v.push((n / 0x100_0000_0000_0000) as u8);
    v.push(((n / 0x1_0000_0000_0000) % 0x100) as u8);
    v.push(((n / 0x100_0000_0000) % 0x100) as u8);
    v.push(((n / 0x1_0000_0000) % 0x100) as u8);
    v.push(((n / 0x100_0000) % 0x100) as u8);
    v.push(((n / 0x1_0000) % 0x100) as u8);
    v.push(((n / 0x100) % 0x100) as u8);
    v.push((n % 0x100) as u8);
    proof {
        assert(v@ =~= u64_be_bytes(n));
    }
    v
}

/// The sixteen little-endian bytes of `n` as a vector.
pub fn encode_u128_le(n: u128) -> (r: Vec<u8>)
    ensures
        r@ == u128_le_bytes(n),
{
    let mut v: Vec<u8> = Vec::new();
    v.push((n % 0x100) as u8);
    v.push(((n / 0x100) % 0x100) as u8);
    v.push(((n / 0x1_0000) % 0x100) as u8);
    v.push(((n / 0x100_0000) % 0x100) as u8);
    v.push(((n / 0x1_0000_0000) % 0x100) as u8);
    v.push(((n / 0x100_0000_0000) % 0x100) as u8);
    v.push(((n / 0x1_0000_0000_0000) % 0x100) as u8);
    v.push(((n / 0x100_0000_0000_0000) % 0x100) as u8);
    v.push(((n / 0x1_0000_0000_0000_0000) % 0x100) as u8);
    v.push(((n / 0x100_0000_0000_0000_0000) % 0x100) as u8);
    v.push(((n / 0x1_0000_0000_0000_0000_0000) % 0x100) as u8);
    v.push(((n / 0x100_0000_0000_0000_0000_0000) % 0x100) as u8);
    v.push(((n / 0x1_0000_0000_0000_0000_0000_0000) % 0x100) as u8);
    v.push(((n / 0x100_0000_0000_0000_0000_0000_0000) % 0x100) as u8);
    v.push(((n / 0x1_0000_0000_0000_0000_0000_0000_0000) % 0x100) as u8);
    v.push(((n / 0x100_0000_0000_0000_0000_0000_0000_0000) % 0x100) as u8);
    proof {
        assert(v@ =~= u128_le_bytes(n));
    }
    v
}

/// The input handed to the randomness beacon for a key derivation: the
/// module-scoped identifier followed by the seed, laid out as the host's
/// codec encodes the pair (identifier bytes, then the seed little-endian).
pub fn randomness_input(module_id: &Vec<u8>, seed: u128) -> (r: Vec<u8>)
    ensures
        r@ == module_id@ + u128_le_bytes(seed),
{
    let mut v: Vec<u8> = Vec::new();
    let mut i: usize = 0;
    while i < module_id.len()
        invariant
            0 <= i <= module_id@.len(),
            v@ == module_id@.subrange(0, i as int),
        decreases module_id@.len() - i,
    {
        v.push(module_id[i]);
        proof {
            assert(v@ =~= module_id@.subrange(0, i + 1));
        }
        i = i + 1;
    }
    proof {
        assert(v@ =~= module_id@);
    }
    let mut seed_bytes = encode_u128_le(seed);
    v.append(&mut seed_bytes);
    v
}

/// Derives a content key from a draw `randomness` of the randomness
/// beacon: sixteen bytes, a function of the draw's leading four bytes.
pub fn generate_content_key(randomness: &Vec<u8>) -> (r: Vec<u8>)
    requires
        randomness@.len() >= 4,
    ensures
        r@ == derived_content_key(randomness@),
        r@.len() == 16,
{
    let random_number = generate_random_number(randomness);
    let content_key_seed = encode_u32_le(random_number);
    uuid_v5_dns(&content_key_seed)
}

} // verus!
