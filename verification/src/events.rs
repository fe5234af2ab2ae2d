use vstd::prelude::*;
use crate::pubkey::Pubkey;

verus! {

/// A workout instance was opened.
#[derive(Clone, Copy, Debug, PartialEq, Eq)]
pub struct WorkoutOpened {
    /// Address of the instance.
    pub instance: Pubkey,
    /// The trainer leading the workout.
    pub trainer: Pubkey,
    /// Unix time from which claims are accepted.
    pub window_start_ts: i64,
    /// Unix time up to and including which claims are accepted.
    pub window_end_ts: i64,
    /// Date of the workout, as YYYYMMDD.
    pub yyyymmdd: u32,
    /// Hour of the workout.
    pub hour: u8,
    /// Minute of the workout.
    pub minute: u8,
}

/// A user's claim was accepted.
#[derive(Clone, Copy, Debug, PartialEq, Eq)]
pub struct Claimed {
    /// Address of the instance claimed.
    pub instance: Pubkey,
    /// The user who claimed.
    pub user: Pubkey,
    /// The credential issued; all zero while none has been minted.
    pub nft_mint: Pubkey,
    /// The month, as YYYYMM, towards which the claim counts.
    pub yyyymm: u32,
    /// The user's count for that month, this claim included.
    pub new_monthly_count: u32,
}

/// What the minting of a credential is told of an accepted claim. Minting is
/// not part of the claim: the claim stands whether or not a credential has
/// been minted for it yet.
#[derive(Clone, Debug, PartialEq, Eq)]
pub struct ClaimAccepted {
    /// Address of the instance claimed.
    pub instance: Pubkey,
    /// The user who claimed.
    pub user: Pubkey,
    /// Date of the workout, as YYYYMMDD.
    pub yyyymmdd: u32,
    /// Hour of the workout.
    pub hour: u8,
    /// Minute of the workout.
    pub minute: u8,
    /// Display name of the trainer who led the workout.
    pub trainer_display_name: String,
}

/// A workout instance was closed.
#[derive(Clone, Copy, Debug, PartialEq, Eq)]
pub struct WorkoutClosed {
    /// Address of the instance.
    pub instance: Pubkey,
    /// The trainer who led the workout.
    pub trainer: Pubkey,
}

/// A trainer was registered.
#[derive(Clone, Debug, PartialEq, Eq)]
pub struct TrainerRegistered {
    /// The trainer.
    pub trainer: Pubkey,
    /// The trainer's display name.
    pub display_name: String,
}

/// An administrator was added.
#[derive(Clone, Copy, Debug, PartialEq, Eq)]
pub struct AdminAdded {
    /// The new administrator.
    pub admin: Pubkey,
}

/// An administrator was removed.
#[derive(Clone, Copy, Debug, PartialEq, Eq)]
pub struct AdminRemoved {
    /// The administrator removed.
    pub admin: Pubkey,
}

} // verus!
