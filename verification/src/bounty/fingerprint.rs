//! Content fingerprints of submitted work.

use vstd::prelude::*;

verus! {

/// The 256-bit Blake2 digest of `data`.
pub uninterp spec fn blake2_256(data: Seq<u8>) -> Seq<u8>;

/// Hashes `data` with `sp_runtime::traits::BlakeTwo256`, the `Hash::hash`
/// of that type, and hands the digest out as bytes. The contract only names
/// the digest: it is the same for the same bytes, and nothing more is
/// claimed of it.
#[verifier::external_body]
pub(crate) fn digest_of(data: &Vec<u8>) -> (digest: Vec<u8>)
    ensures
        digest@ == blake2_256(data@),
{
    <sp_runtime::traits::BlakeTwo256 as sp_runtime::traits::Hash>::hash(data).as_ref().to_vec()
}

} // verus!
