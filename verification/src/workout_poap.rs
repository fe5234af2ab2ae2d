use vstd::prelude::*;
use crate::errors::WorkoutError;
use crate::events::{AdminAdded, AdminRemoved, Claimed, TrainerRegistered, WorkoutClosed, WorkoutOpened};
use crate::hash::sha256;
use crate::instructions::{
    AddAdmin, ClaimNft, CloseWorkoutInstance, InitializeConfig, OpenWorkoutInstance,
    RegisterTrainer, RemoveAdmin, SetSchedule,
};
use crate::pubkey::Pubkey;
use crate::state::DaySlot;

verus! {

/// Creates the program's configuration, with the caller as super-admin. To be
/// called once, before anything else.
pub fn initialize_config(ctx: &mut InitializeConfig, collection_mint: Option<Pubkey>) -> (result:
    Result<(), WorkoutError>)
    ensures
        match result {
            Ok(_) => {
                &&& old(ctx).rejection() is None
                &&& *final(ctx) == old(ctx).initialized(collection_mint)
            },
            Err(error) => {
                &&& old(ctx).rejection() == Some(error)
                &&& *final(ctx) == *old(ctx)
            },
        },
{
    crate::instructions::initialize_config(ctx, collection_mint)
}

/// Makes a principal an administrator. Only the super-admin may.
pub fn add_admin(ctx: &mut AddAdmin) -> (result: Result<AdminAdded, WorkoutError>)
    ensures
        match result {
            Ok(event) => {
                &&& old(ctx).rejection() is None
                &&& *final(ctx) == old(ctx).added()
                &&& event == (AdminAdded { admin: old(ctx).new_admin })
            },
            Err(error) => {
                &&& old(ctx).rejection() == Some(error)
                &&& *final(ctx) == *old(ctx)
            },
        },
{
    crate::instructions::add_admin(ctx)
}

/// Removes an administrator. Only the super-admin may.
pub fn remove_admin(ctx: &RemoveAdmin) -> (result: Result<AdminRemoved, WorkoutError>)
    ensures
        result == match ctx.rejection() {
            Some(error) => Err::<AdminRemoved, WorkoutError>(error),
            None => Ok::<AdminRemoved, WorkoutError>(ctx.removed_event()),
        },
{
    crate::instructions::remove_admin(ctx)
}

/// Registers a trainer. Any administrator may.
pub fn register_trainer(ctx: &mut RegisterTrainer, display_name: String) -> (result: Result<
    TrainerRegistered,
    WorkoutError,
>)
    ensures
        match result {
            Ok(event) => {
                &&& old(ctx).rejection(display_name@) is None
                &&& *final(ctx) == old(ctx).registered(display_name)
                &&& final(ctx).trainer->Some_0.wf()
                &&& event.trainer == old(ctx).trainer_pubkey
                &&& event.display_name@ == display_name@
            },
            Err(error) => {
                &&& old(ctx).rejection(display_name@) == Some(error)
                &&& *final(ctx) == *old(ctx)
            },
        },
{
    crate::instructions::register_trainer(ctx, display_name)
}

/// Creates a schedule or replaces what it held. Any administrator may.
pub fn set_schedule(
    ctx: &mut SetSchedule,
    schedule_id: String,
    slots: Vec<DaySlot>,
    is_active: bool,
) -> (result: Result<(), WorkoutError>)
    ensures
        match result {
            Ok(_) => {
                &&& old(ctx).rejection(slots@) is None
                &&& *final(ctx) == old(ctx).updated(slots, is_active)
                &&& final(ctx).schedule.wf()
            },
            Err(error) => {
                &&& old(ctx).rejection(slots@) == Some(error)
                &&& *final(ctx) == *old(ctx)
            },
        },
{
    crate::instructions::set_schedule(ctx, schedule_id, slots, is_active)
}

/// Opens a workout instance. An administrator may, and so may the trainer who
/// will lead the workout; anyone else is refused with `Unauthorized`,
/// whatever the other values are, and nothing is written. For a caller who
/// may, the instance is created as `instructions::open_workout_instance`
/// says.
pub fn open_workout_instance(
    ctx: &mut OpenWorkoutInstance,
    yyyymmdd: u32,
    hour: u8,
    minute: u8,
    window_start_ts: i64,
    window_end_ts: i64,
    secret_hash: [u8; 32],
    metadata_uri_override: Option<String>,
    now: i64,
) -> (result: Result<WorkoutOpened, WorkoutError>)
    ensures
        !old(ctx).authorized() ==> {
            &&& result == Err::<WorkoutOpened, WorkoutError>(WorkoutError::Unauthorized)
            &&& *final(ctx) == *old(ctx)
        },
        old(ctx).authorized() ==> match result {
            Ok(event) => {
                &&& old(ctx).rejection(window_start_ts, window_end_ts, metadata_uri_override)
                    is None
                &&& final(ctx).instance matches Some(instance)
                &&& instance@ == old(ctx).opened(
                    yyyymmdd,
                    hour,
                    minute,
                    window_start_ts,
                    window_end_ts,
                    secret_hash,
                    metadata_uri_override,
                    now,
                )
                &&& instance.wf()
                &&& *final(ctx) == (OpenWorkoutInstance {
                    instance: final(ctx).instance,
                    ..*old(ctx)
                })
                &&& event == old(ctx).opened_event(
                    yyyymmdd,
                    hour,
                    minute,
                    window_start_ts,
                    window_end_ts,
                )
            },
            Err(error) => {
                &&& old(ctx).rejection(window_start_ts, window_end_ts, metadata_uri_override)
                    == Some(error)
                &&& *final(ctx) == *old(ctx)
            },
        },
{
    match ctx.validate() {
        Ok(_) => {},
        Err(error) => {
            return Err(error);
        },
    }
    crate::instructions::open_workout_instance(
        ctx,
        yyyymmdd,
        hour,
        minute,
        window_start_ts,
        window_end_ts,
        secret_hash,
        metadata_uri_override,
        now,
    )
}

/// Closes a workout instance. An administrator may, and so may the trainer of
/// the instance; anyone else is refused with `Unauthorized`, and nothing is
/// written. Closing an instance that is closed already succeeds and changes
/// nothing.
pub fn close_workout_instance(ctx: &mut CloseWorkoutInstance) -> (result: Result<
    WorkoutClosed,
    WorkoutError,
>)
    ensures
        !old(ctx).authorized() ==> {
            &&& result == Err::<WorkoutClosed, WorkoutError>(WorkoutError::Unauthorized)
            &&& *final(ctx) == *old(ctx)
        },
        old(ctx).authorized() ==> {
            &&& result == Ok::<WorkoutClosed, WorkoutError>(old(ctx).closed_event())
            &&& *final(ctx) == old(ctx).closed()
            &&& final(ctx).instance@ == old(ctx).instance@.closed()
        },
        old(ctx).instance.is_closed ==> *final(ctx) == *old(ctx),
        old(ctx).instance.wf() ==> final(ctx).instance.wf(),
{
    match ctx.validate() {
        Ok(_) => {},
        Err(error) => {
            return Err(error);
        },
    }
    crate::instructions::close_workout_instance(ctx)
}

/// Claims attendance of a workout instance for a user, at time `now`, by
/// revealing the secret that the instance was opened with. Accepted at most
/// once per user and instance, and only while the instance is open and `now`
/// lies in its claim window, both ends included.
pub fn claim_nft(ctx: &mut ClaimNft, now: i64, reveal_secret: Vec<u8>) -> (result: Result<
    Claimed,
    WorkoutError,
>)
    ensures
        match result {
            Ok(event) => {
                &&& old(ctx).rejection(now, sha256(reveal_secret@)) is None
                &&& *final(ctx) == old(ctx).accepted()
                &&& event == old(ctx).claimed_event()
            },
            Err(error) => {
                &&& old(ctx).rejection(now, sha256(reveal_secret@)) == Some(error)
                &&& *final(ctx) == *old(ctx)
            },
        },
{
    crate::instructions::claim_nft(ctx, now, reveal_secret)
}

} // verus!
