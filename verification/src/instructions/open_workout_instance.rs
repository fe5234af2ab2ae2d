use vstd::prelude::*;
use crate::access::{authorize, may_manage};
use crate::errors::WorkoutError;
use crate::events::WorkoutOpened;
use crate::pubkey::Pubkey;
use crate::state::{Admin, Trainer, WorkoutInstance, WorkoutInstanceView};
use crate::text::{byte_len, utf8_len};

verus! {

/// Bump seed of the record that opening creates.
#[derive(Clone, Copy, Debug, PartialEq, Eq)]
pub struct OpenWorkoutInstanceBumps {
    pub instance: u8,
}

/// The records that opening a workout instance reads and writes.
#[derive(Clone, Debug, PartialEq, Eq)]
pub struct OpenWorkoutInstance {
    /// The caller.
    pub authority: Pubkey,
    /// The administrator record found for the caller, if there is one.
    pub admin: Option<Admin>,
    /// The trainer who will lead the workout.
    pub trainer: Trainer,
    /// Address of the instance: the one derived from the trainer, the date,
    /// the hour and the minute.
    pub instance_key: Pubkey,
    /// The record at that address, if there is one already.
    pub instance: Option<WorkoutInstance>,
    pub bumps: OpenWorkoutInstanceBumps,
}

/// The text of a metadata address that may be absent; absent is empty.
pub open spec fn uri_text(uri: Option<String>) -> Seq<char> {
    match uri {
        Some(text) => text@,
        None => Seq::empty(),
    }
}

/// Why an instance cannot be opened with this window and this metadata
/// address, if it cannot; `exists` says whether an instance is stored at the
/// address already. The checks come in this order: the window is empty; the
/// metadata address is too long; an instance exists.
pub open spec fn opening_rejection(
    exists: bool,
    window_start_ts: i64,
    window_end_ts: i64,
    metadata_uri: Seq<char>,
) -> Option<WorkoutError> {
    if window_end_ts <= window_start_ts {
        Some(WorkoutError::InvalidTimeWindow)
    } else if utf8_len(metadata_uri) > WorkoutInstance::MAX_METADATA_URI_LEN {
        Some(WorkoutError::MetadataUriTooLong)
    } else if exists {
        Some(WorkoutError::AlreadyExists)
    } else {
        None
    }
}

/// What a newly opened instance holds: the values it was opened with, the
/// time of creation, and the flag that says it is open.
pub open spec fn opened_instance(
    trainer: Pubkey,
    yyyymmdd: u32,
    hour: u8,
    minute: u8,
    window_start_ts: i64,
    window_end_ts: i64,
    secret_hash: Seq<u8>,
    metadata_uri: Seq<char>,
    now: i64,
    bump: u8,
) -> WorkoutInstanceView {
    WorkoutInstanceView {
        trainer,
        start_ts: now,
        window_start_ts,
        window_end_ts,
        secret_hash,
        is_closed: false,
        yyyymmdd,
        hour,
        minute,
        metadata_uri_override: metadata_uri,
        bump,
    }
}

impl OpenWorkoutInstance {
    /// The caller may open the instance: an administrator, or the trainer
    /// who will lead the workout.
    pub open spec fn authorized(&self) -> bool {
        may_manage(self.authority, self.admin, self.trainer.authority)
    }

    /// Why the instance cannot be opened with these values, if it cannot.
    pub open spec fn rejection(
        &self,
        window_start_ts: i64,
        window_end_ts: i64,
        metadata_uri_override: Option<String>,
    ) -> Option<WorkoutError> {
        opening_rejection(
            self.instance is Some,
            window_start_ts,
            window_end_ts,
            uri_text(metadata_uri_override),
        )
    }

    /// What the new record holds.
    pub open spec fn opened(
        &self,
        yyyymmdd: u32,
        hour: u8,
        minute: u8,
        window_start_ts: i64,
        window_end_ts: i64,
        secret_hash: [u8; 32],
        metadata_uri_override: Option<String>,
        now: i64,
    ) -> WorkoutInstanceView {
        opened_instance(
            self.trainer.authority,
            yyyymmdd,
            hour,
            minute,
            window_start_ts,
            window_end_ts,
            secret_hash@,
            uri_text(metadata_uri_override),
            now,
            self.bumps.instance,
        )
    }

    /// What is announced when the instance is opened.
    pub open spec fn opened_event(
        &self,
        yyyymmdd: u32,
        hour: u8,
        minute: u8,
        window_start_ts: i64,
        window_end_ts: i64,
    ) -> WorkoutOpened {
        WorkoutOpened {
            instance: self.instance_key,
            trainer: self.trainer.authority,
            window_start_ts,
            window_end_ts,
            yyyymmdd,
            hour,
            minute,
        }
    }

    /// Checks that the caller may open the instance: the caller is an
    /// administrator, or the trainer who will lead the workout.
    pub fn validate(&self) -> (result: Result<(), WorkoutError>)
        ensures
            result == if self.authorized() {
                Ok::<(), WorkoutError>(())
            } else {
                Err::<(), WorkoutError>(WorkoutError::Unauthorized)
            },
    {
        if authorize(&self.authority, &self.admin, &self.trainer.authority) {
            Ok(())
        } else {
            Err(WorkoutError::Unauthorized)
        }
    }
}

/// Creates the workout instance of the trainer at the given date, hour and
/// minute, open, with the claim window `[window_start_ts, window_end_ts]` and
/// the digest of the secret that claimants will reveal. `now` is the time of
/// creation.
///
/// Refused if the window is empty, if the metadata address is longer than
/// `WorkoutInstance::MAX_METADATA_URI_LEN` bytes, or if an instance exists at
/// the address. A refusal leaves every record as it was. Whether the caller
/// may open the instance is not looked at here: see
/// `OpenWorkoutInstance::validate`.
pub fn open_workout_instance(
    ctx: &mut OpenWorkoutInstance,
    yyyymmdd: u32,
    hour: u8,
    minute: u8,
    window_start_ts: i64,
    window_end_ts: i64,
    secret_hash: [u8; 32],
    metadata_uri_override: Option<String>,
    now: i64,
) -> (result: Result<WorkoutOpened, WorkoutError>)
    ensures
        match result {
            Ok(event) => {
                &&& old(ctx).rejection(window_start_ts, window_end_ts, metadata_uri_override)
                    is None
                &&& final(ctx).instance matches Some(instance)
                &&& instance@ == old(ctx).opened(
                    yyyymmdd,
                    hour,
                    minute,
                    window_start_ts,
                    window_end_ts,
                    secret_hash,
                    metadata_uri_override,
                    now,
                )
                &&& instance.wf()
                &&& *final(ctx) == (OpenWorkoutInstance {
                    instance: final(ctx).instance,
                    ..*old(ctx)
                })
                &&& event == old(ctx).opened_event(
                    yyyymmdd,
                    hour,
                    minute,
                    window_start_ts,
                    window_end_ts,
                )
            },
            Err(error) => {
                &&& old(ctx).rejection(window_start_ts, window_end_ts, metadata_uri_override)
                    == Some(error)
                &&& *final(ctx) == *old(ctx)
            },
        },
{
    if !(window_end_ts > window_start_ts) {
        return Err(WorkoutError::InvalidTimeWindow);
    }
    if let Some(uri) = &metadata_uri_override {
        if !(byte_len(uri) <= WorkoutInstance::MAX_METADATA_URI_LEN) {
            return Err(WorkoutError::MetadataUriTooLong);
        }
    }
    if ctx.instance.is_some() {
        return Err(WorkoutError::AlreadyExists);
    }
    let uri = match metadata_uri_override {
        Some(text) => text,
        None => String::new(),
    };
    proof {
        assert(utf8_len(Seq::<char>::empty()) == 0) by {
            reveal_with_fuel(vstd::utf8::encode_utf8, 1);
        }
    }
    let instance = WorkoutInstance {
        trainer: ctx.trainer.authority,
        start_ts: now,
        window_start_ts,
        window_end_ts,
        secret_hash,
        is_closed: false,
        yyyymmdd,
        hour,
        minute,
        metadata_uri_override: uri,
        bump: ctx.bumps.instance,
    };
    ctx.instance = Some(instance);
    Ok(
        WorkoutOpened {
            instance: ctx.instance_key,
            trainer: ctx.trainer.authority,
            window_start_ts,
            window_end_ts,
            yyyymmdd,
            hour,
            minute,
        },
    )
}

} // verus!
