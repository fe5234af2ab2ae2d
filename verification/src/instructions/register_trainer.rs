use vstd::prelude::*;
use crate::errors::WorkoutError;
use crate::events::TrainerRegistered;
use crate::pubkey::Pubkey;
use crate::state::{Admin, Trainer};
use crate::text::{byte_len, utf8_len};

verus! {

/// Bump seed of the record that registering creates.
#[derive(Clone, Copy, Debug, PartialEq, Eq)]
pub struct RegisterTrainerBumps {
    pub trainer: u8,
}

/// The records that registering a trainer reads and writes.
#[derive(Clone, Debug, PartialEq, Eq)]
pub struct RegisterTrainer {
    /// The caller.
    pub admin_authority: Pubkey,
    /// The administrator record found for the caller.
    pub admin: Admin,
    /// The principal to register as a trainer.
    pub trainer_pubkey: Pubkey,
    /// The trainer record of that principal, if there is one already.
    pub trainer: Option<Trainer>,
    pub bumps: RegisterTrainerBumps,
}

impl RegisterTrainer {
    /// The administrator record is the caller's own.
    pub open spec fn authorized(&self) -> bool {
        self.admin.authority == self.admin_authority
    }

    /// Why the trainer cannot be registered under `display_name`, if they
    /// cannot. The checks come in this order: the caller is no administrator;
    /// the name is too long; the principal is a trainer already.
    pub open spec fn rejection(&self, display_name: Seq<char>) -> Option<WorkoutError> {
        if !self.authorized() {
            Some(WorkoutError::Unauthorized)
        } else if utf8_len(display_name) > Trainer::MAX_DISPLAY_NAME_LEN {
            Some(WorkoutError::DisplayNameTooLong)
        } else if self.trainer is Some {
            Some(WorkoutError::AlreadyExists)
        } else {
            None
        }
    }

    /// The records after the trainer was registered.
    pub open spec fn registered(&self, display_name: String) -> RegisterTrainer {
        RegisterTrainer {
            trainer: Some(
                Trainer { authority: self.trainer_pubkey, display_name, bump: self.bumps.trainer },
            ),
            ..*self
        }
    }
}

/// Registers the principal as a trainer under the given display name.
///
/// Refused if the caller is no administrator, if the name is longer than
/// `Trainer::MAX_DISPLAY_NAME_LEN` bytes, or if the principal is a trainer
/// already. A refusal leaves every record as it was.
pub fn register_trainer(ctx: &mut RegisterTrainer, display_name: String) -> (result: Result<
    TrainerRegistered,
    WorkoutError,
>)
    ensures
        match result {
            Ok(event) => {
                &&& old(ctx).rejection(display_name@) is None
                &&& *final(ctx) == old(ctx).registered(display_name)
                &&& final(ctx).trainer->Some_0.wf()
                &&& event.trainer == old(ctx).trainer_pubkey
                &&& event.display_name@ == display_name@
            },
            Err(error) => {
                &&& old(ctx).rejection(display_name@) == Some(error)
                &&& *final(ctx) == *old(ctx)
            },
        },
{
    if !(ctx.admin.authority == ctx.admin_authority) {
        return Err(WorkoutError::Unauthorized);
    }
    if !(byte_len(&display_name) <= Trainer::MAX_DISPLAY_NAME_LEN) {
        return Err(WorkoutError::DisplayNameTooLong);
    }
    if ctx.trainer.is_some() {
        return Err(WorkoutError::AlreadyExists);
    }
    let announced = display_name.clone();
    ctx.trainer = Some(
        Trainer { authority: ctx.trainer_pubkey, display_name, bump: ctx.bumps.trainer },
    );
    Ok(TrainerRegistered { trainer: ctx.trainer_pubkey, display_name: announced })
}

} // verus!
