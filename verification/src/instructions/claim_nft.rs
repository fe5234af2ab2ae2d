use vstd::prelude::*;
use crate::commit_reveal::verify_digest;
use crate::errors::WorkoutError;
use crate::events::{ClaimAccepted, Claimed};
use crate::hash::{digest_of, sha256};
use crate::pubkey::Pubkey;
use crate::state::{Attendance, MonthlyCounter, Trainer, WorkoutInstance};

verus! {

/// Bump seeds of the records that a claim may create.
#[derive(Clone, Copy, Debug, PartialEq, Eq)]
pub struct ClaimNftBumps {
    pub attendance: u8,
    pub monthly_counter: u8,
}

/// The records that a claim reads and writes.
///
/// `attendance` is the record of the pair (`instance_key`, `user`), and
/// `monthly_counter` the record of `user` and the month of the instance; each
/// is blank where the pair, or the user and month, has none yet.
#[derive(Clone, Debug, PartialEq, Eq)]
pub struct ClaimNft {
    /// The user claiming.
    pub user: Pubkey,
    /// Address of the instance claimed.
    pub instance_key: Pubkey,
    /// The instance claimed.
    pub instance: WorkoutInstance,
    /// The trainer who led the workout.
    pub trainer: Trainer,
    /// The user's attendance record for the instance.
    pub attendance: Attendance,
    /// The user's counter for the month of the instance.
    pub monthly_counter: MonthlyCounter,
    pub bumps: ClaimNftBumps,
}

impl ClaimNft {
    /// Why a claim at `now` that reveals a secret with digest `digest` is
    /// refused, if it is.
    pub open spec fn rejection(&self, now: i64, digest: Seq<u8>) -> Option<WorkoutError> {
        self.instance@.claim_rejection(self.attendance, self.monthly_counter, now, digest)
    }

    /// The month towards which the claim counts.
    pub open spec fn month(&self) -> u32 {
        self.instance@.month()
    }

    /// The records after the claim was accepted: the attendance record is
    /// claimed, and the counter is one higher.
    pub open spec fn accepted(&self) -> ClaimNft {
        ClaimNft {
            attendance: Attendance::claimed_by(self.instance_key, self.user, self.bumps.attendance),
            monthly_counter: self.monthly_counter.incremented(
                self.user,
                self.month(),
                self.bumps.monthly_counter,
            ),
            ..*self
        }
    }

    /// What is announced when the claim is accepted.
    pub open spec fn claimed_event(&self) -> Claimed {
        Claimed {
            instance: self.instance_key,
            user: self.user,
            nft_mint: Pubkey::spec_default(),
            yyyymm: self.month(),
            new_monthly_count: self.accepted().monthly_counter.count,
        }
    }
}

impl ClaimNft {
    /// What the minting of the credential is to be told, once the claim has
    /// been accepted: the instance and the user, the date and time of the
    /// workout, and the trainer's display name.
    pub fn claim_accepted(&self) -> (event: ClaimAccepted)
        ensures
            event == (ClaimAccepted {
                instance: self.instance_key,
                user: self.user,
                yyyymmdd: self.instance.yyyymmdd,
                hour: self.instance.hour,
                minute: self.instance.minute,
                trainer_display_name: self.trainer.display_name,
            }),
    {
        ClaimAccepted {
            instance: self.instance_key,
            user: self.user,
            yyyymmdd: self.instance.yyyymmdd,
            hour: self.instance.hour,
            minute: self.instance.minute,
            trainer_display_name: self.trainer.display_name.clone(),
        }
    }

    /// Once a claim has been accepted, no further claim on the same records
    /// is: whatever the time and the secret, it is refused, and with
    /// `AlreadyClaimed` where the instance is open, the time lies in the
    /// window and the secret is the right one.
    pub proof fn lemma_accepted_claim_is_not_repeated(
        self,
        now: i64,
        digest: Seq<u8>,
        later: i64,
        later_digest: Seq<u8>,
    )
        requires
            self.rejection(now, digest) is None,
        ensures
            self.accepted().attendance.claimed,
            self.accepted().monthly_counter.count == self.monthly_counter.count + 1,
            self.accepted().rejection(later, later_digest) is Some,
            self.instance@.in_window(later) && self.instance@.accepts_digest(later_digest)
                ==> self.accepted().rejection(later, later_digest) == Some(
                WorkoutError::AlreadyClaimed,
            ),
    {
    }

    /// A closed instance refuses every claim with `InstanceClosed`, whatever
    /// the time, the secret and the claimant's records.
    pub proof fn lemma_closed_instance_refuses_every_claim(self, now: i64, digest: Seq<u8>)
        requires
            self.instance.is_closed,
        ensures
            self.rejection(now, digest) == Some(WorkoutError::InstanceClosed),
    {
    }
}

/// Decides a claim of which the revealed secret's digest is `digest`, and
/// records it where it is accepted.
///
/// A refused claim leaves every record as it was.
pub fn claim_with_digest(ctx: &mut ClaimNft, now: i64, digest: &[u8; 32]) -> (result: Result<
    Claimed,
    WorkoutError,
>)
    ensures
        match result {
            Ok(event) => {
                &&& old(ctx).rejection(now, digest@) is None
                &&& *final(ctx) == old(ctx).accepted()
                &&& event == old(ctx).claimed_event()
            },
            Err(error) => {
                &&& old(ctx).rejection(now, digest@) == Some(error)
                &&& *final(ctx) == *old(ctx)
            },
        },
{
    if ctx.instance.is_closed {
        return Err(WorkoutError::InstanceClosed);
    }
    if !(now >= ctx.instance.window_start_ts && now <= ctx.instance.window_end_ts) {
        return Err(WorkoutError::InvalidClaimWindow);
    }
    if verify_digest(&ctx.instance, digest).is_err() {
        return Err(WorkoutError::HashMismatch);
    }
    if ctx.attendance.claimed {
        return Err(WorkoutError::AlreadyClaimed);
    }
    if ctx.monthly_counter.count == u32::MAX {
        return Err(WorkoutError::CounterOverflow);
    }
    ctx.attendance.instance = ctx.instance_key;
    ctx.attendance.user = ctx.user;
    ctx.attendance.claimed = true;
    ctx.attendance.nft_mint = Pubkey::default();
    ctx.attendance.bump = ctx.bumps.attendance;

    let yyyymm: u32 = ctx.instance.yyyymmdd / 100;
    if ctx.monthly_counter.count == 0 {
        ctx.monthly_counter.user = ctx.user;
        ctx.monthly_counter.yyyymm = yyyymm;
        ctx.monthly_counter.bump = ctx.bumps.monthly_counter;
    }
    ctx.monthly_counter.count = ctx.monthly_counter.count + 1;

    Ok(
        Claimed {
            instance: ctx.instance_key,
            user: ctx.user,
            nft_mint: Pubkey::default(),
            yyyymm,
            new_monthly_count: ctx.monthly_counter.count,
        },
    )
}

/// Claims attendance of the instance for the user, at time `now`, by
/// revealing the secret whose SHA-256 digest the instance was opened with.
///
/// The claim is accepted if the instance is open, `now` lies in the claim
/// window (both ends included), the secret's digest is the committed one, the
/// user has not claimed this instance before, and the counter is below the
/// largest count that it can hold. Then the attendance record is marked
/// claimed and the user's counter for the month of the instance goes up by
/// one. A refused claim leaves every record as it was.
pub fn claim_nft(ctx: &mut ClaimNft, now: i64, reveal_secret: Vec<u8>) -> (result: Result<
    Claimed,
    WorkoutError,
>)
    ensures
        match result {
            Ok(event) => {
                &&& old(ctx).rejection(now, sha256(reveal_secret@)) is None
                &&& *final(ctx) == old(ctx).accepted()
                &&& event == old(ctx).claimed_event()
            },
            Err(error) => {
                &&& old(ctx).rejection(now, sha256(reveal_secret@)) == Some(error)
                &&& *final(ctx) == *old(ctx)
            },
        },
{
    let digest = digest_of(reveal_secret.as_slice());
    claim_with_digest(ctx, now, &digest)
}

} // verus!
