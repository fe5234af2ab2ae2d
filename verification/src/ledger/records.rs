use vstd::prelude::*;
use crate::errors::WorkoutError;
use crate::instructions::{uri_text, ClaimNft, CloseWorkoutInstance, OpenWorkoutInstance};
use crate::ledger::{ClaimRequest, CloseRequest, Ledger, OpenRequest};

verus! {

/// The records that a claim works on are those that the ledger holds for the
/// instance, the user and the month.
pub open spec fn claim_records_agree(ledger: Ledger, ctx: ClaimNft) -> bool {
    &&& ledger.instances.contains_key(ctx.instance_key)
    &&& ledger.instances[ctx.instance_key] == ctx.instance@
    &&& ledger.attendance_of(ctx.instance_key, ctx.user) == ctx.attendance
    &&& ledger.counter_of(ctx.user, ctx.month()) == ctx.monthly_counter
}

/// The request that a claim on the given records makes of the ledger.
pub open spec fn claim_request(ctx: ClaimNft, now: i64, digest: Seq<u8>) -> ClaimRequest {
    ClaimRequest { user: ctx.user, instance_key: ctx.instance_key, now, digest, bumps: ctx.bumps }
}

/// What `claim_with_digest` does to the records of a claim is what the claim
/// does to the ledger that they were taken from: the same refusal, and, where
/// the claim is accepted, the ledger with the two records written back.
pub proof fn lemma_claim_on_records_is_claim_on_ledger(
    ledger: Ledger,
    ctx: ClaimNft,
    now: i64,
    digest: Seq<u8>,
)
    requires
        claim_records_agree(ledger, ctx),
    ensures
        ledger.claim_error(claim_request(ctx, now, digest)) == ctx.rejection(now, digest),
        ledger.claim_accepted(claim_request(ctx, now, digest)) <==> ctx.rejection(now, digest)
            is None,
        ledger.claim_accepted(claim_request(ctx, now, digest)) ==> {
            &&& ledger.claim(claim_request(ctx, now, digest)) == (Ledger {
                attendance: ledger.attendance.insert(
                    (ctx.instance_key, ctx.user),
                    ctx.accepted().attendance,
                ),
                counters: ledger.counters.insert(
                    (ctx.user, ctx.month()),
                    ctx.accepted().monthly_counter,
                ),
                ..ledger
            })
            &&& claim_records_agree(ledger.claim(claim_request(ctx, now, digest)), ctx.accepted())
        },
{
}

/// The records that opening works on are those that the ledger holds at the
/// address of the instance.
pub open spec fn open_records_agree(ledger: Ledger, ctx: OpenWorkoutInstance) -> bool {
    match ctx.instance {
        Some(instance) => ledger.instances.contains_key(ctx.instance_key)
            && ledger.instances[ctx.instance_key] == instance@,
        None => !ledger.instances.contains_key(ctx.instance_key),
    }
}

/// What opening does to its records is what it does to the ledger that they
/// were taken from: the same refusal, and, where the instance is opened, the
/// ledger with the new instance.
pub proof fn lemma_open_on_records_is_open_on_ledger(
    ledger: Ledger,
    ctx: OpenWorkoutInstance,
    yyyymmdd: u32,
    hour: u8,
    minute: u8,
    window_start_ts: i64,
    window_end_ts: i64,
    secret_hash: [u8; 32],
    metadata_uri_override: Option<String>,
    now: i64,
)
    requires
        open_records_agree(ledger, ctx),
    ensures
        ({
            let request = OpenRequest {
                authority: ctx.authority,
                admin: ctx.admin,
                trainer: ctx.trainer.authority,
                instance_key: ctx.instance_key,
                yyyymmdd,
                hour,
                minute,
                window_start_ts,
                window_end_ts,
                secret_hash: secret_hash@,
                metadata_uri: uri_text(metadata_uri_override),
                now,
                bump: ctx.bumps.instance,
            };
            &&& ledger.open_error(request) == if ctx.authorized() {
                ctx.rejection(window_start_ts, window_end_ts, metadata_uri_override)
            } else {
                Some(WorkoutError::Unauthorized)
            }
            &&& ledger.open_error(request) is None ==> ledger.open(request) == (Ledger {
                instances: ledger.instances.insert(
                    ctx.instance_key,
                    ctx.opened(
                        yyyymmdd,
                        hour,
                        minute,
                        window_start_ts,
                        window_end_ts,
                        secret_hash,
                        metadata_uri_override,
                        now,
                    ),
                ),
                ..ledger
            })
            &&& ledger.open_error(request) is Some ==> ledger.open(request) == ledger
        }),
{
}

/// What closing does to its records is what it does to the ledger that they
/// were taken from, where the trainer's record is that of the trainer whom
/// the instance names.
pub proof fn lemma_close_on_records_is_close_on_ledger(ledger: Ledger, ctx: CloseWorkoutInstance)
    requires
        ledger.instances.contains_key(ctx.instance_key),
        ledger.instances[ctx.instance_key] == ctx.instance@,
        ctx.trainer.authority == ctx.instance.trainer,
    ensures
        ({
            let request = CloseRequest {
                authority: ctx.authority,
                admin: ctx.admin,
                instance_key: ctx.instance_key,
            };
            &&& ledger.close_error(request) is None <==> ctx.authorized()
            &&& ctx.authorized() ==> ledger.close(request) == (Ledger {
                instances: ledger.instances.insert(ctx.instance_key, ctx.closed().instance@),
                ..ledger
            })
            &&& !ctx.authorized() ==> ledger.close(request) == ledger
        }),
{
}

} // verus!
