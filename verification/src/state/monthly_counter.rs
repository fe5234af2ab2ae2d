use vstd::prelude::*;
use crate::pubkey::Pubkey;

verus! {

/// How many workouts a user attended in one month. There is one record per
/// user and month, addressed by the tag `monthly`, the user and the month.
///
/// A record that has not counted a claim yet is blank. The count never goes
/// down, and goes up by one per accepted claim.
#[derive(Clone, Copy, Debug, PartialEq, Eq)]
pub struct MonthlyCounter {
    /// The user whose attendance is counted.
    pub user: Pubkey,
    /// The month, as YYYYMM.
    pub yyyymm: u32,
    /// Number of accepted claims in the month.
    pub count: u32,
    /// Bump seed of the record's address.
    pub bump: u8,
}

impl MonthlyCounter {
    /// Stored size in bytes: discriminator, user, month, count, bump.
    pub const LEN: usize = 8 + 32 + 4 + 4 + 1;

    /// The blank record, as it is before the first claim of the month.
    pub open spec fn spec_default() -> MonthlyCounter {
        MonthlyCounter { user: Pubkey::spec_default(), yyyymm: 0, count: 0, bump: 0 }
    }

    /// Whether one more claim can be counted.
    pub open spec fn has_room(self) -> bool {
        self.count < u32::MAX
    }

    /// The record after one more claim by `user` in `yyyymm`. A record whose
    /// count is zero takes the user, the month and the bump from the claim; a
    /// record that has counted before keeps its own.
    pub open spec fn incremented(self, user: Pubkey, yyyymm: u32, bump: u8) -> MonthlyCounter
        recommends
            self.has_room(),
    {
        if self.count == 0 {
            MonthlyCounter { user, yyyymm, count: 1, bump }
        } else {
            MonthlyCounter { count: (self.count + 1) as u32, ..self }
        }
    }
}

impl Default for MonthlyCounter {
    fn default() -> (record: MonthlyCounter)
        ensures
            record == MonthlyCounter::spec_default(),
    {
        MonthlyCounter { user: Pubkey::default(), yyyymm: 0, count: 0, bump: 0 }
    }
}

} // verus!
