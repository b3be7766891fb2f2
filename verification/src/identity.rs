//! Anonymized client identity: a one-way keyed hash of the client's IP
//! string, so raw addresses are never retained in the admission map. The
//! admission key is the digest's leading bytes read as one integer.

use vstd::prelude::*;

use sha2::{Digest, Sha256};

verus! {

/// The SHA-256 digest of the salt bytes followed by the data bytes. The
/// digest itself is opaque; it is a function of the two inputs alone.
pub uninterp spec fn keyed_digest(salt: Seq<char>, data: Seq<char>) -> Seq<u8>;

/// Relies on sha2's `Sha256` (via the `Digest` trait): feeding the salt
/// and then the data digests their concatenation; the 32-byte result
/// depends on those bytes alone, in every process and on every machine.
#[verifier::external_body]
fn sha256_pair(salt: &str, data: &str) -> (r: Vec<u8>)
    ensures
        r@ == keyed_digest(salt@, data@),
        r@.len() == 32,
{
    let mut hasher = Sha256::new();
    hasher.update(salt.as_bytes());
    hasher.update(data.as_bytes());
    hasher.finalize().to_vec()
}

/// The big-endian value of a byte sequence.
pub open spec fn be_fold(bs: Seq<u8>) -> nat
    decreases bs.len(),
{
    if bs.len() == 0 {
        0
    } else {
        (be_fold(bs.drop_last()) * 256 + bs.last()) as nat
    }
}

/// The identity derived from a salt and an IP string: the first eight
/// digest bytes read big-endian.
pub open spec fn spec_identity(salt: Seq<char>, ip: Seq<char>) -> nat {
    be_fold(keyed_digest(salt, ip).take(8))
}

/// An upper bound for the value of `i` big-endian bytes.
spec fn byte_bound(i: int) -> nat {
    if i <= 0 {
        1
    } else if i == 1 {
        0x100
    } else if i == 2 {
        0x10000
    } else if i == 3 {
        0x1000000
    } else if i == 4 {
        0x100000000
    } else if i == 5 {
        0x10000000000
    } else if i == 6 {
        0x1000000000000
    } else if i == 7 {
        0x100000000000000
    } else {
        0x10000000000000000
    }
}

/// Derive the anonymized admission identity of a client IP under the
/// configured salt.
pub fn derive_identity(salt: &str, ip: &str) -> (id: u64)
    ensures
        id == spec_identity(salt@, ip@),
{
    let digest = sha256_pair(salt, ip);
    let ghost d = digest@;
    let mut acc: u64 = 0;
    let mut i: usize = 0;
    while i < 8
        invariant
            i <= 8,
            digest@ == d,
            d.len() == 32,
            acc == be_fold(d.take(i as int)),
            acc < byte_bound(i as int),
        decreases 8 - i,
    {
        let b = digest[i];
        proof {
            assert(d.take(i + 1).drop_last() =~= d.take(i as int));
            assert(d.take(i + 1).last() == d[i as int]);
            assert(byte_bound(i + 1) == byte_bound(i as int) * 256);
        }
        acc = acc * 256 + (b as u64);
        i += 1;
    }
    acc
}

} // verus!
