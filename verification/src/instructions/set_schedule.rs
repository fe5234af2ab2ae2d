use vstd::prelude::*;
use crate::errors::WorkoutError;
use crate::pubkey::Pubkey;
use crate::state::{Admin, DaySlot, Schedule};

verus! {

/// Bump seed of the schedule's record.
#[derive(Clone, Copy, Debug, PartialEq, Eq)]
pub struct SetScheduleBumps {
    pub schedule: u8,
}

/// The records that setting a schedule reads and writes.
#[derive(Clone, Debug, PartialEq, Eq)]
pub struct SetSchedule {
    /// The caller.
    pub admin_authority: Pubkey,
    /// The administrator record found for the caller.
    pub admin: Admin,
    /// The schedule's record: what was set before, or anything where the
    /// schedule is new. It is overwritten.
    pub schedule: Schedule,
    pub bumps: SetScheduleBumps,
}

impl SetSchedule {
    /// The administrator record is the caller's own.
    pub open spec fn authorized(&self) -> bool {
        self.admin.authority == self.admin_authority
    }

    /// Why the schedule cannot be set to `slots`, if it cannot. The checks
    /// come in this order: the caller is no administrator; there is no slot;
    /// there are more than `Schedule::MAX_SLOTS`.
    pub open spec fn rejection(&self, slots: Seq<DaySlot>) -> Option<WorkoutError> {
        if !self.authorized() {
            Some(WorkoutError::Unauthorized)
        } else if slots.len() == 0 {
            Some(WorkoutError::EmptySchedule)
        } else if slots.len() > Schedule::MAX_SLOTS {
            Some(WorkoutError::TooManySlots)
        } else {
            None
        }
    }

    /// The records after the schedule was set.
    pub open spec fn updated(&self, slots: Vec<DaySlot>, is_active: bool) -> SetSchedule {
        SetSchedule {
            schedule: Schedule {
                created_by: self.admin_authority,
                slots,
                is_active,
                bump: self.bumps.schedule,
            },
            ..*self
        }
    }
}

/// Sets the schedule `_schedule_id` to the given slots, in the caller's name.
/// What the schedule held before is replaced.
///
/// Refused if the caller is no administrator, or if there are no slots or
/// more than `Schedule::MAX_SLOTS`. A refusal leaves every record as it was.
/// The id serves to address the record and is not stored in it.
pub fn set_schedule(
    ctx: &mut SetSchedule,
    _schedule_id: String,
    slots: Vec<DaySlot>,
    is_active: bool,
) -> (result: Result<(), WorkoutError>)
    ensures
        match result {
            Ok(_) => {
                &&& old(ctx).rejection(slots@) is None
                &&& *final(ctx) == old(ctx).updated(slots, is_active)
                &&& final(ctx).schedule.wf()
            },
            Err(error) => {
                &&& old(ctx).rejection(slots@) == Some(error)
                &&& *final(ctx) == *old(ctx)
            },
        },
{
    if !(ctx.admin.authority == ctx.admin_authority) {
        return Err(WorkoutError::Unauthorized);
    }
    if slots.len() == 0 {
        return Err(WorkoutError::EmptySchedule);
    }
    if !(slots.len() <= Schedule::MAX_SLOTS) {
        return Err(WorkoutError::TooManySlots);
    }
    ctx.schedule.created_by = ctx.admin_authority;
    ctx.schedule.slots = slots;
    ctx.schedule.is_active = is_active;
    ctx.schedule.bump = ctx.bumps.schedule;
    Ok(())
}

} // verus!
