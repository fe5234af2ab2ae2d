use vstd::prelude::*;
use crate::errors::WorkoutError;
use crate::hash::{digest_of, digests_equal, sha256};
use crate::state::WorkoutInstance;

verus! {

/// The commitment to a secret: its SHA-256 digest. An instance is opened with
/// the commitment, and the secret itself is revealed only after the workout.
pub fn commit(secret: &[u8]) -> (commitment: [u8; 32])
    ensures
        commitment@ == sha256(secret@),
{
    digest_of(secret)
}

/// Checks a digest against the one the instance was opened with. The two
/// must agree in every one of their 32 bytes.
pub fn verify_digest(instance: &WorkoutInstance, digest: &[u8; 32]) -> (result: Result<
    (),
    WorkoutError,
>)
    ensures
        result == if digest@ == instance.secret_hash@ {
            Ok::<(), WorkoutError>(())
        } else {
            Err::<(), WorkoutError>(WorkoutError::HashMismatch)
        },
{
    if digests_equal(digest, &instance.secret_hash) {
        Ok(())
    } else {
        Err(WorkoutError::HashMismatch)
    }
}

/// Checks a revealed secret against the commitment the instance was opened
/// with: the secret is accepted if and only if its SHA-256 digest is the
/// committed one. Nothing is written, so the check may be repeated at will.
pub fn verify(instance: &WorkoutInstance, reveal_secret: &[u8]) -> (result: Result<
    (),
    WorkoutError,
>)
    ensures
        result == if sha256(reveal_secret@) == instance.secret_hash@ {
            Ok::<(), WorkoutError>(())
        } else {
            Err::<(), WorkoutError>(WorkoutError::HashMismatch)
        },
{
    let digest = digest_of(reveal_secret);
    verify_digest(instance, &digest)
}

/// A secret is accepted by an instance that was opened with its commitment,
/// and a second secret is accepted by that instance exactly when it has the
/// same digest: one whose digest differs in any byte is refused.
pub proof fn lemma_reveal_matches_commitment(
    instance: WorkoutInstance,
    secret: Seq<u8>,
    other: Seq<u8>,
)
    requires
        instance.secret_hash@ == sha256(secret),
    ensures
        instance@.accepts_digest(sha256(secret)),
        instance@.accepts_digest(sha256(other)) <==> sha256(other) == sha256(secret),
{
}

} // verus!
