use vstd::prelude::*;

verus! {

/// The SHA-256 digest of a byte string, as a sequence of 32 bytes.
///
/// The digest is computed outside this library; see [`digest_of`].
pub uninterp spec fn sha256(data: Seq<u8>) -> Seq<u8>;

/// Hashes `data` with `anchor_lang::solana_program::hash::hash` and returns the
/// 32 bytes of the resulting `Hash`.
///
/// Trusted: the contract names the result `sha256(data@)` and claims nothing
/// else of it. That the function depends on its argument alone, and that the
/// result is SHA-256, rests on the outside crate.
#[verifier::external_body]
pub(crate) fn digest_of(data: &[u8]) -> (digest: [u8; 32])
    ensures
        digest@ == sha256(data@),
{
    anchor_lang::solana_program::hash::hash(data).to_bytes()
}

/// Compares two digests byte for byte. Every byte is looked at, whatever the
/// earlier ones held.
pub fn digests_equal(left: &[u8; 32], right: &[u8; 32]) -> (same: bool)
    ensures
        same == (left@ == right@),
{
    let mut i: usize = 0;
    let mut same = true;
    while i < 32
        invariant
            i <= 32,
            same == (forall|j: int| 0 <= j < i ==> left[j] == right[j]),
        decreases 32 - i,
    {
        if left[i] != right[i] {
            same = false;
        }
        i += 1;
    }
    proof {
        if same {
            assert(left@ =~= right@);
        }
    }
    same
}

} // verus!
