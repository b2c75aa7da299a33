//! Content hashes of proposal bodies.

use crate::primitives::{bodies, H256};
use sp_core::Hasher;
use vstd::prelude::*;

verus! {

broadcast use vstd::array::group_array_axioms;

/// The Blake2b digest of `data`, 256 bits wide, as its 32 bytes.
pub uninterp spec fn blake2_256(data: Seq<u8>) -> Seq<u8>;

/// The content hash of a proposal body: the digest whose bytes are
/// `blake2_256(data)`.
pub open spec fn content_hash(data: Seq<u8>) -> H256 {
    choose|digest: H256| digest@ == blake2_256(data)
}

/// The content hashes of the first `n` of `proposals`, in order.
pub open spec fn content_hashes(proposals: Seq<Seq<u8>>, n: int) -> Seq<H256> {
    Seq::new(n as nat, |i: int| content_hash(proposals[i]))
}

/// Calls `sp_core::Blake2Hasher::hash`, the Blake2b hasher with a 256-bit
/// output, and hands back the bytes of the digest it returns. Trusted: the
/// digest is a function of the input bytes alone, which the contract names
/// `blake2_256`; nothing else is claimed of it.
#[verifier::external_body]
fn blake2_hash(data: &Vec<u8>) -> (digest: H256)
    ensures
        digest@ == blake2_256(data@),
{
    sp_core::Blake2Hasher::hash(data.as_slice()).0
}

/// The content hash of one proposal body.
pub fn hash_proposal(data: &Vec<u8>) -> (digest: H256)
    ensures
        digest == content_hash(data@),
        digest@ == blake2_256(data@),
{
    let digest = blake2_hash(data);
    proof {
        let chosen = content_hash(data@);
        assert(chosen@ == blake2_256(data@));
        assert(chosen =~= digest);
    }
    digest
}

/// Hashes the first `n` of `proposals`, in order.
pub fn hash_proposals(proposals: &Vec<Vec<u8>>, n: usize) -> (hashes: Vec<H256>)
    requires
        n <= proposals.len(),
    ensures
        hashes@ == content_hashes(bodies(proposals@), n as int),
{
    let mut hashes: Vec<H256> = Vec::new();
    let mut i: usize = 0;
    while i < n
        invariant
            i <= n <= proposals.len(),
            hashes@ == content_hashes(bodies(proposals@), i as int),
        decreases n - i,
    {
        let digest = hash_proposal(&proposals[i]);
        hashes.push(digest);
        i += 1;
        assert(hashes@ =~= content_hashes(bodies(proposals@), i as int));
    }
    hashes
}

} // verus!
