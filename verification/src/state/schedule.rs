use vstd::prelude::*;
use crate::pubkey::Pubkey;

verus! {

/// One recurring time in the week at which a workout takes place.
#[derive(Clone, Copy, Debug, PartialEq, Eq)]
pub struct DaySlot {
    /// Day of the week: 0 is Sunday, 6 is Saturday.
    pub dow: u8,
    /// Hour, 0 to 23.
    pub hour: u8,
    /// Minute, 0 to 59.
    pub minute: u8,
}

impl DaySlot {
    /// Stored size in bytes.
    pub const LEN: usize = 3;
}

/// A weekly template from which workout instances are created. There is one
/// record per schedule id, addressed by the tag `schedule` and the id's bytes.
#[derive(Clone, Debug, PartialEq, Eq)]
pub struct Schedule {
    /// The administrator who set the schedule.
    pub created_by: Pubkey,
    /// The recurring times, at least one and at most `MAX_SLOTS`.
    pub slots: Vec<DaySlot>,
    /// Whether the schedule is in use.
    pub is_active: bool,
    /// Bump seed of the record's address.
    pub bump: u8,
}

impl Schedule {
    /// Most slots that a schedule can hold.
    pub const MAX_SLOTS: usize = 20;

    /// Stored size in bytes: discriminator, creator, length-prefixed slots,
    /// flag, bump.
    pub const LEN: usize = 8 + 32 + 4 + (Self::MAX_SLOTS * DaySlot::LEN) + 1 + 1;

    /// A schedule that was set holds between one and `MAX_SLOTS` slots.
    pub open spec fn wf(&self) -> bool {
        1 <= self.slots@.len() <= Schedule::MAX_SLOTS
    }
}

} // verus!
