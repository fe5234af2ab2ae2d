use vstd::prelude::*;
use crate::access::{check_admin, is_admin};
use crate::errors::WorkoutError;
use crate::events::WorkoutClosed;
use crate::pubkey::Pubkey;
use crate::state::{Admin, Trainer, WorkoutInstance};

verus! {

/// The records that closing a workout instance reads and writes.
#[derive(Clone, Debug, PartialEq, Eq)]
pub struct CloseWorkoutInstance {
    /// The caller.
    pub authority: Pubkey,
    /// The administrator record found for the caller, if there is one.
    pub admin: Option<Admin>,
    /// The record of the trainer whom the instance names.
    pub trainer: Trainer,
    /// Address of the instance.
    pub instance_key: Pubkey,
    /// The instance to close.
    pub instance: WorkoutInstance,
}

impl CloseWorkoutInstance {
    /// The caller is the trainer of the instance.
    pub open spec fn caller_is_trainer(&self) -> bool {
        self.authority == self.trainer.authority && self.authority == self.instance.trainer
    }

    /// The caller may close the instance: an administrator, or the trainer of
    /// the instance.
    pub open spec fn authorized(&self) -> bool {
        is_admin(self.authority, self.admin) || self.caller_is_trainer()
    }

    /// The records after closing: the instance is closed, and nothing else
    /// has changed.
    pub open spec fn closed(&self) -> CloseWorkoutInstance {
        CloseWorkoutInstance {
            instance: WorkoutInstance { is_closed: true, ..self.instance },
            ..*self
        }
    }

    /// What is announced when the instance is closed.
    pub open spec fn closed_event(&self) -> WorkoutClosed {
        WorkoutClosed { instance: self.instance_key, trainer: self.instance.trainer }
    }

    /// Checks that the caller may close the instance: the caller is an
    /// administrator, or the trainer of the instance.
    pub fn validate(&self) -> (result: Result<(), WorkoutError>)
        ensures
            result == if self.authorized() {
                Ok::<(), WorkoutError>(())
            } else {
                Err::<(), WorkoutError>(WorkoutError::Unauthorized)
            },
    {
        if check_admin(&self.authority, &self.admin) {
            return Ok(());
        }
        if self.authority == self.trainer.authority && self.authority == self.instance.trainer {
            Ok(())
        } else {
            Err(WorkoutError::Unauthorized)
        }
    }
}

/// Closes the instance: from now on every claim of it is refused. Closing an
/// instance that is closed already changes nothing and succeeds.
///
/// Whether the caller may close the instance is not looked at here: see
/// `CloseWorkoutInstance::validate`.
pub fn close_workout_instance(ctx: &mut CloseWorkoutInstance) -> (result: Result<
    WorkoutClosed,
    WorkoutError,
>)
    ensures
        result == Ok::<WorkoutClosed, WorkoutError>(old(ctx).closed_event()),
        *final(ctx) == old(ctx).closed(),
        final(ctx).instance@ == old(ctx).instance@.closed(),
        old(ctx).instance.is_closed ==> *final(ctx) == *old(ctx),
        old(ctx).instance.wf() ==> final(ctx).instance.wf(),
{
    ctx.instance.is_closed = true;
    Ok(WorkoutClosed { instance: ctx.instance_key, trainer: ctx.instance.trainer })
}

} // verus!
